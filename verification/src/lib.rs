//! The verified core of a file explorer: listing, filtering, ordering and selecting entries,
//! key bindings and settings, file type detection, and the decisions of file operations.

use vstd::prelude::*;

pub mod app;
pub mod clipboard;
pub mod config;
pub mod file;
pub mod file_system;
pub mod file_types;
pub mod input;
pub mod laws;
pub mod order;
pub mod path;
pub mod paths;
pub mod selection;
pub mod tables;
pub mod text;
pub mod theme;
pub mod toasts;
pub mod types;
pub mod ui;

verus! {

} // verus!
