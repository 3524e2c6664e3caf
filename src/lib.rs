//! A small interactive command interpreter: the verified core.
//!
//! The library splits input lines into argument vectors, resolves commands
//! against the builtin table and the `PATH` search list, and decides each
//! step of running a child process. The surrounding program performs the
//! operating-system calls and feeds their results back in.

pub mod text;
pub mod builtin;
pub mod path;
pub mod process;
pub mod shell;

pub use builtin::{echo, get_builtin, Builtin};
pub use shell::Shell;
