//! The parsed command line.

use vstd::prelude::*;
use super::leaf::LeafMatches;

verus! {

/// Top-level command line of the `dotfiles-manager` binary.
#[derive(Debug)]
pub struct Cli {
    /// The subcommand to run; `None` when no subcommand was given.
    pub command: Option<Command>,
    /// Suppress non-essential output (`-q`/`--quiet`, accepted on any command).
    pub quiet: bool,
    /// Print additional diagnostic output (`--verbose`, accepted on any command).
    pub verbose: bool,
    /// Never prompt; confirmations answer no (`--no-input`, accepted on any command).
    pub no_input: bool,
}

/// All top-level subcommands supported by `dfm`.
#[derive(Debug)]
pub enum Command {
    /// Clone a dotfiles repo into ~/.dfm and restore it (onboard a new machine).
    Link(LinkArgs),
    /// Backup system configurations and user data to a safe location.
    Backup(BackupArgs),
    /// Restore system state from a previously created backup.
    Restore(RestoreArgs),
    /// Switch to a different profile.
    Use(UseArgs),
    /// Manage profiles (list, create, delete).
    Profile(ProfileArgs),
    /// Run git commands in the dfm repository.
    Git(GitArgs),
    /// Show the working tree status (shortcut for `dfm git status`).
    Status(PassthroughArgs),
    /// Show changes (shortcut for `dfm git diff`).
    Diff(PassthroughArgs),
    /// Stage, commit, and push to the dfm repository.
    Sync(SyncArgs),
    /// Validate dfm's registry files and check backups for drift.
    Doctor(DoctorArgs),
    /// Manage the encryption password in the system keychain.
    Secret {
        /// Which secret-management action to perform.
        action: SecretActions,
    },
    /// Delete backup directories left behind by profiles that no longer exist.
    Prune,
    /// Open one of dfm's registry/config files in an editor.
    Edit(EditArgs),
    /// Print a shell completion script to stdout.
    Completions(CompletionsArgs),
    /// Print the roff man page to stdout.
    Man,
}

/// Arguments for the `dfm completions` subcommand.
#[derive(Debug)]
pub struct CompletionsArgs {
    /// The shell to generate completions for.
    pub shell: Shell,
}

/// The shells that completion scripts can be generated for.
#[derive(Debug, Clone, Copy, PartialEq, Eq, Structural)]
pub enum Shell {
    /// Bash.
    Bash,
    /// Elvish.
    Elvish,
    /// Fish.
    Fish,
    /// PowerShell.
    PowerShell,
    /// Zsh.
    Zsh,
}

/// Actions available for managing the encryption password in the system keychain.
#[derive(Debug, Clone, Copy, PartialEq, Eq, Structural)]
pub enum SecretActions {
    /// Store the encryption password in the system keychain (`dfm secret set`).
    SetPassword,
    /// Remove the encryption password from the system keychain.
    Delete,
}

/// Arguments for the `dfm backup` subcommand.
#[derive(Debug)]
pub struct BackupArgs {
    /// Target a specific profile for backup.
    pub profile: Option<String>,
    /// Skip encrypted configs backup (will not prompt for password).
    pub skip_encrypted: bool,
    /// Always prompt for the encryption password instead of using the one stored in the system keychain.
    pub ask_password: bool,
    /// List what would be backed up without writing anything.
    pub dry_run: bool,
}

/// Arguments for the `dfm link` subcommand.
#[derive(Debug)]
pub struct LinkArgs {
    /// GitHub repo to link: a URL or `owner/repo` shorthand.
    pub repo: String,
    /// Skip encrypted configs restore (will not prompt for password).
    pub skip_encrypted: bool,
    /// Always prompt for the encryption password instead of using the one stored in the system keychain.
    pub ask_password: bool,
}

/// Arguments for the `dfm restore` subcommand.
#[derive(Debug)]
pub struct RestoreArgs {
    /// Skip encrypted configs restore (will not prompt for password).
    pub skip_encrypted: bool,
    /// Always prompt for the encryption password instead of using the one stored in the system keychain.
    pub ask_password: bool,
    /// List what would be restored without writing anything.
    pub dry_run: bool,
}

/// Arguments for the `dfm doctor` subcommand.
#[derive(Debug)]
pub struct DoctorArgs {
    /// Skip encrypted configs validation (will not prompt for password).
    pub skip_encrypted: bool,
    /// Always prompt for the encryption password instead of using the one stored in the system keychain.
    pub ask_password: bool,
    /// Rewrite dfm's own registry/config JSON files as pretty-printed, sorted JSON; never touches user-owned backed-up config files.
    pub fix: bool,
    /// Also check disabled registry entries in the backup consistency check.
    pub include_disabled: bool,
    /// Output findings as JSON instead of human-readable text.
    pub json: bool,
}

/// Arguments for the `dfm edit` subcommand.
#[derive(Debug)]
pub struct EditArgs {
    /// Which registry/config file to edit.
    pub registry: RegistryChoice,
    /// Editor command to launch: a name like vi, nano, or emacs, or any custom binary/command; defaults to $VISUAL, then $EDITOR, then vi.
    pub editor: Option<String>,
}

/// Which of dfm's own registry/config files `dfm edit` opens.
#[derive(Debug, Clone, Copy, PartialEq, Eq, Structural)]
pub enum RegistryChoice {
    /// The config.registry.json file.
    Config,
    /// The package.registry.json file.
    Package,
    /// The encrypted.registry.json file.
    Encrypted,
    /// The profiles.json file.
    Profiles,
}

/// Arguments for the `dfm git` subcommand.
#[derive(Debug)]
pub struct GitArgs {
    /// Trailing arguments forwarded as-is to the underlying `git` invocation; at least one is required.
    pub args: Vec<String>,
}

/// Trailing args forwarded as-is to the underlying `git` invocation, for
/// `dfm status`/`dfm diff` shortcuts. Unlike [`GitArgs`], empty is valid
/// (e.g. plain `dfm status`).
#[derive(Debug)]
pub struct PassthroughArgs {
    /// Trailing arguments forwarded as-is to the underlying `git` invocation; may be empty.
    pub args: Vec<String>,
}

/// Arguments for the `dfm sync` subcommand.
#[derive(Debug)]
pub struct SyncArgs {
    /// Custom commit message; defaults to `chore: sync dfm (<UTC date time>)` when omitted.
    pub message: Option<String>,
    /// List the changes that would be staged, committed and pushed, without touching the repository.
    pub dry_run: bool,
}

/// Arguments for the `dfm use` subcommand.
#[derive(Debug)]
pub struct UseArgs {
    /// Profile name to switch to.
    pub profile: String,
}

/// Arguments for the `dfm profile` subcommand.
#[derive(Debug)]
pub struct ProfileArgs {
    /// Which profile-management action to perform; `None` when no action was given.
    pub action: Option<ProfileActions>,
    /// Output the profile list/status as JSON instead of human-readable text.
    pub json: bool,
}

/// Actions available for managing profiles.
#[derive(Debug)]
pub enum ProfileActions {
    /// List all available profiles.
    List,
    /// Create a new profile.
    Create {
        /// Name for the new profile.
        name: String,
        /// Optional description for the profile.
        description: Option<String>,
    },
    /// Delete a profile.
    Delete {
        /// Name of the profile to delete.
        name: String,
    },
}

/// Which command a parsed command line names.
#[derive(Debug, Clone, Copy, PartialEq, Eq, Structural)]
pub enum CommandKind {
    Link,
    Backup,
    Restore,
    Use,
    /// `profile` with no action.
    Profile,
    ProfileList,
    ProfileCreate,
    ProfileDelete,
    Git,
    Status,
    Diff,
    Sync,
    Doctor,
    SecretSet,
    SecretDelete,
    Prune,
    Edit,
    Completions,
    Man,
}

/// A parsed command: which one, and its flags, option values and
/// positional values in the order of its grammar.
pub struct CommandModel {
    /// Which command.
    pub kind: CommandKind,
    /// Its flags, option values and positional values.
    pub matches: LeafMatches,
}

/// The view of an optional string.
pub open spec fn opt_string(o: Option<String>) -> Option<Seq<char>> {
    match o {
        Some(s) => Some(s@),
        None => None,
    }
}

/// The value that names a registry on the command line.
pub open spec fn registry_name(r: RegistryChoice) -> Seq<char> {
    match r {
        RegistryChoice::Config => "config"@,
        RegistryChoice::Package => "package"@,
        RegistryChoice::Encrypted => "encrypted"@,
        RegistryChoice::Profiles => "profiles"@,
    }
}

/// The value that names `shell` on the command line.
pub open spec fn shell_name(shell: Shell) -> Seq<char> {
    match shell {
        Shell::Bash => "bash"@,
        Shell::Elvish => "elvish"@,
        Shell::Fish => "fish"@,
        Shell::PowerShell => "powershell"@,
        Shell::Zsh => "zsh"@,
    }
}

/// A command model from its parts.
pub open spec fn model_of(
    kind: CommandKind,
    flags: Seq<bool>,
    values: Seq<Option<Seq<char>>>,
    pos: Seq<Seq<char>>,
) -> CommandModel {
    CommandModel { kind, matches: LeafMatches { flags, values, pos } }
}

/// The views of a list of strings.
pub open spec fn string_views(v: Seq<String>) -> Seq<Seq<char>> {
    v.map_values(|s: String| s@)
}

impl Command {
    /// What was given for this command, in the order of its grammar.
    pub open spec fn model(self) -> CommandModel {
        match self {
            Command::Link(a) => model_of(
                CommandKind::Link,
                seq![a.skip_encrypted, a.ask_password],
                seq![],
                seq![a.repo@],
            ),
            Command::Backup(a) => model_of(
                CommandKind::Backup,
                seq![a.skip_encrypted, a.ask_password, a.dry_run],
                seq![opt_string(a.profile)],
                seq![],
            ),
            Command::Restore(a) => model_of(
                CommandKind::Restore,
                seq![a.skip_encrypted, a.ask_password, a.dry_run],
                seq![],
                seq![],
            ),
            Command::Use(a) => model_of(CommandKind::Use, seq![], seq![], seq![a.profile@]),
            Command::Profile(p) => match p.action {
                None => model_of(CommandKind::Profile, seq![p.json], seq![], seq![]),
                Some(ProfileActions::List) => model_of(
                    CommandKind::ProfileList,
                    seq![p.json],
                    seq![],
                    seq![],
                ),
                Some(ProfileActions::Create { name, description }) => model_of(
                    CommandKind::ProfileCreate,
                    seq![p.json],
                    seq![opt_string(description)],
                    seq![name@],
                ),
                Some(ProfileActions::Delete { name }) => model_of(
                    CommandKind::ProfileDelete,
                    seq![p.json],
                    seq![],
                    seq![name@],
                ),
            },
            Command::Git(a) => model_of(CommandKind::Git, seq![], seq![], string_views(a.args@)),
            Command::Status(a) => model_of(
                CommandKind::Status,
                seq![],
                seq![],
                string_views(a.args@),
            ),
            Command::Diff(a) => model_of(CommandKind::Diff, seq![], seq![], string_views(a.args@)),
            Command::Sync(a) => model_of(
                CommandKind::Sync,
                seq![a.dry_run],
                seq![opt_string(a.message)],
                seq![],
            ),
            Command::Doctor(a) => model_of(
                CommandKind::Doctor,
                seq![a.skip_encrypted, a.ask_password, a.fix, a.include_disabled, a.json],
                seq![],
                seq![],
            ),
            Command::Secret { action } => model_of(
                match action {
                    SecretActions::SetPassword => CommandKind::SecretSet,
                    SecretActions::Delete => CommandKind::SecretDelete,
                },
                seq![],
                seq![],
                seq![],
            ),
            Command::Prune => model_of(CommandKind::Prune, seq![], seq![], seq![]),
            Command::Edit(a) => model_of(
                CommandKind::Edit,
                seq![],
                seq![opt_string(a.editor)],
                seq![registry_name(a.registry)],
            ),
            Command::Completions(a) => model_of(
                CommandKind::Completions,
                seq![],
                seq![],
                seq![shell_name(a.shell)],
            ),
            Command::Man => model_of(CommandKind::Man, seq![], seq![], seq![]),
        }
    }
}

impl Cli {
    /// The parsed command, if any, and the global flags `quiet`, `verbose`
    /// and `no_input`, in that order.
    pub open spec fn model(self) -> (Option<CommandModel>, Seq<bool>) {
        (
            match self.command {
                Some(c) => Some(c.model()),
                None => None,
            },
            seq![self.quiet, self.verbose, self.no_input],
        )
    }
}

} // verus!
