//! Verified core of the dotfiles manager: doctor findings, sync decisions,
//! terminal styling, prompt decisions and the command-line grammar.

pub mod text;
pub mod doctor;
pub mod sync;
pub mod output;
pub mod prompt;
pub mod cli;
pub mod sections;
pub mod hints;
pub mod profiles;
