//! Verified core of the Signet signing / verification toolkit.
pub mod text;
pub mod argv;
pub mod paths;
pub mod artifact;
pub mod fs;
pub mod order;
pub mod clock;
pub mod commands;
pub mod config;
pub mod exit;
pub mod console;
pub mod graduate;
pub mod inspect;
pub mod ios;
pub mod android;
pub mod project;
pub mod release;
pub mod scan;
pub mod host;
pub mod identity;
pub mod selfsign;
