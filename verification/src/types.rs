//! The data of the explorer's first layout: the folder listing as entries and the indices shown,
//! and what a new path is made as. The other types are those of `app` and `file`.

use crate::app::{blank_entry, Entry};
use vstd::prelude::*;

pub use crate::app::{
    ClipboardMode, Field, FieldKind, NavigateDirection, Overlay, OverlayKind, Property,
    TempEntry, ToastKind,
};
pub use crate::file::PasteKind;

verus! {

/// The entries of a folder and the indices, into them, of those displayed, in display order.
#[derive(Clone, Debug)]
pub struct Entries {
    pub children: Vec<Entry>,
    pub displaying: Vec<usize>,
}

impl Entries {
    /// The entry displayed at position `index`, if that position names an entry.
    pub fn entry(&self, index: &usize) -> (res: Option<&Entry>)
        requires
            *index < self.displaying@.len(),
        ensures
            res == if self.displaying@[*index as int] < self.children@.len() {
                Some(&self.children@[self.displaying@[*index as int] as int])
            } else {
                None
            },
    {
        let i = self.displaying[*index];
        if i < self.children.len() {
            Some(&self.children[i])
        } else {
            None
        }
    }
}

impl Default for Entries {
    /// Thirty-one blank entries, none displayed.
    fn default() -> (res: Entries)
        ensures
            res.children@.len() == 31,
            forall|i: int| 0 <= i < 31 ==> blank_entry(#[trigger] res.children@[i]),
            res.displaying@.len() == 0,
    {
        let mut children: Vec<Entry> = Vec::new();
        let mut i: usize = 0;
        while i <= 30
            invariant
                i <= 31,
                children.len() == i,
                forall|k: int| 0 <= k < i ==> blank_entry(#[trigger] children@[k]),
            decreases 31 - i,
        {
            children.push(Entry::default());
            i = i + 1;
        }
        Entries { children, displaying: Vec::new() }
    }
}

/// Whether a new path ends in a file or in a folder.
#[derive(Clone, Copy, Debug, PartialEq, Eq, Structural)]
pub enum CreateType {
    File,
    Folder,
}

} // verus!
