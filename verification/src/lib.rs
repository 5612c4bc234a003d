//! Core logic of a Java launcher: it merges optional user settings into an
//! ordered list of JVM flags, searches candidate directories for a runtime
//! executable, resolves the application archive path, and assembles the final
//! command line. Filesystem and environment facts enter as plain values, so
//! every decision is made by verified code; the thin binary around this crate
//! performs the actual reads and spawns the child process.

pub mod archive;
pub mod args;
pub mod command;
pub mod config;
pub mod errors;
pub mod locate;
pub mod settings;
pub mod text;
