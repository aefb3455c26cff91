//! Picks a colour theme for the Alacritty terminal emulator and records it
//! in the configuration file's `import` list.
//!
//! The library holds the decisions: which platform is running, where the
//! configuration file may live, which files of a directory are themes, how the
//! selection cursor moves, and how the `import` list of a TOML document is
//! extended without duplicates. Reading the environment and the file system,
//! and drawing the terminal interface, are left to the caller.

pub mod error;
pub mod platform;
pub mod locate;
pub mod catalog;
pub mod imports;
pub mod themes;
pub mod session;
