//! The decisions behind the command-line subcommands.
pub mod android;
pub mod cli;
pub mod doctor;
pub mod graduate;
pub mod identity;
pub mod init;
pub mod inspect;
pub mod ios;
pub mod release;
pub mod scan;
pub mod self_cmd;
pub mod ship;
pub mod sums_key;
pub mod targets;
pub mod trust;
pub mod verify;
