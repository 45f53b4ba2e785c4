//! The command-line grammar of `dfm`: the parsed command line, and the
//! parser that reads it from the arguments.

pub mod args;
pub mod laws;
pub mod leaf;
pub mod parse;
pub mod table;

pub use args::{
    BackupArgs, Cli, Command, CompletionsArgs, DoctorArgs, EditArgs, GitArgs, LinkArgs, PassthroughArgs,
    ProfileActions, ProfileArgs, RegistryChoice, RestoreArgs, SecretActions, Shell, SyncArgs, UseArgs,
};
pub use leaf::CliError;
