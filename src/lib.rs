//! The core of a terminal utility that configures a desktop operating system:
//! a menu navigation state machine, a multi-select checkbox list, the order in
//! which groups of settings are applied, and the reading of a package manager's
//! textual output. Everything that touches the registry, processes, files or
//! the terminal lives with the host program; this library decides and reports.

pub mod checkbox;
pub mod cursor;
pub mod filesystem;
pub mod navigator;
pub mod packages;
pub mod settings;
pub mod text;
