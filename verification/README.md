# dotfiles-manager (verified core)

`dfm` keeps dotfiles organized across machines using profiles. This crate
holds the parts of it whose behaviour is stated and proved with Verus, and a
thin binary around them.

Layout:

- `src/cli/` — the command-line grammar: the parsed command types and a
  parser whose result is proved equal to a specification of the grammar
  (subcommands, flags with long and short names, options with attached or
  separate values, short clusters such as `-nm msg`, `--`, trailing values,
  the global `-q`/`--quiet`, `--verbose` and `--no-input` at every level,
  `completions <shell>`, `man`, `help`, `-h`/`--help`, `-V`/`--version`).
- `src/doctor/` — validation findings, their counts per severity, and the
  verdict of a validation run.
- `src/sync/` — the decisions of `dfm sync`: the commit message and its UTC
  timestamp (`src/sync/stamp.rs`), what the exit status of
  `git diff --cached --quiet` means, the step-by-step run (stage, check,
  commit, push) with a law over whole runs, and the pending changes listed
  by `git status --porcelain`.
- `src/output.rs` — verbosity, severity colors, and the lines printed for
  doctor reports and validation runs, sync previews and profile lists.
- `src/sections.rs` — the lines of backup and restore sections (with the
  `--quiet` rule), their summaries, the `doctor --fix` report, and dry runs.
- `src/profiles.rs` — what `dfm profile` prints, and its JSON rows.
- `src/hints.rs` — the suggestions attached to errors.
- `src/prompt.rs` — what a `[y/N]` reply means and the prompt texts, when
  a password confirmation is read, password checks, where the encryption
  password comes from, and the refusal when it cannot be had.
- `src/text.rs` — character-level helpers (white space, trimming, decimal
  rendering).
- `app/` — the binary: terminal I/O, running git, completion scripts and
  the man page, and `clap` for rendering help, version and usage text; the
  command line itself is read by the library's parser.
