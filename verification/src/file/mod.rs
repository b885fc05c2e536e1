//! Files: their icons, types and properties.

use vstd::prelude::*;

pub mod icons;
pub mod info;
pub mod types;

verus! {

/// What to do with an item whose name is already taken at the destination of a paste.
#[derive(Clone, Copy, Debug, PartialEq, Eq, Structural)]
pub enum PasteKind {
    Replace,
    Duplicate,
}

/// Whether a new path ends in a file or in a folder.
#[derive(Clone, Copy, Debug, PartialEq, Eq, Structural)]
pub enum CreateKind {
    File,
    Folder,
}

} // verus!
