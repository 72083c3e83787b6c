//! The logic of the `sdi` subcommands: everything they compute between
//! reading their arguments and talking to the daemon.

pub mod aggregate;
pub mod comment;
pub mod task;
pub mod ops;
pub mod bypass;
pub mod consensus;
pub mod pattern;
