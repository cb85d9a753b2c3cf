//! Locates the root of a project from a start directory, tells which build
//! tool governs it, merges its configuration with the selected modes, and
//! builds the configure and build command lines, with a staleness check on
//! the configure step.
//!
//! The library works on plain values: what is known of each directory on the
//! way up (`probe`), the parsed configuration (`mk_info`) and the options
//! (`opts`). Reading the filesystem and running commands is left to callers.

pub mod build_system;
pub mod editor_config;
pub mod error;
pub mod mk_info;
pub mod opts;
pub mod probe;
pub mod project;
pub mod text;
pub mod theorems;
