//! A launcher's core: the catalog of installable tools, read from a YAML
//! definition file, how each tool's install script becomes a process to start,
//! and the per-tool install status that the launcher keeps.

pub mod catalog;
pub mod action;
pub mod launcher;
