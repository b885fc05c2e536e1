//! The explorer's own clipboard: the paths put on it, each once, and whether they are to be
//! copied or moved when pasted.

use crate::app::{ClipboardMode, Entry};
use crate::config::ClipboardBehaviour;
use crate::file::icons::IconKind;
use crate::paths;
use crate::text;
use vstd::prelude::*;

verus! {

/// The paths on the clipboard, in the order they were put there, and the mode they were put
/// there with.
#[derive(Debug)]
pub struct ClipboardManager {
    pub entries: Vec<String>,
    pub mode: Option<ClipboardMode>,
}

/// The paths, by their views.
pub open spec fn path_views(v: Seq<String>) -> Seq<Seq<char>> {
    v.map_values(|s: String| s@)
}

/// Some path of `s` names the same path as `p`.
pub open spec fn holds_path(s: Seq<Seq<char>>, p: Seq<char>) -> bool {
    exists|i: int| 0 <= i < s.len() && paths::spec_same_path(#[trigger] s[i], p)
}

/// No two paths of `s` name the same path.
pub open spec fn distinct_paths(s: Seq<Seq<char>>) -> bool {
    forall|i: int, j: int|
        0 <= i < j < s.len() ==> !paths::spec_same_path(#[trigger] s[i], #[trigger] s[j])
}

/// `base` with each of `added` appended in turn, unless it names a path already there.
pub open spec fn with_paths(base: Seq<Seq<char>>, added: Seq<Seq<char>>) -> Seq<Seq<char>>
    decreases added.len(),
{
    if added.len() == 0 {
        base
    } else {
        let acc = with_paths(base, added.drop_last());
        if holds_path(acc, added.last()) {
            acc
        } else {
            acc.push(added.last())
        }
    }
}

impl ClipboardManager {
    /// Each path is on the clipboard once, and a clipboard with paths has a mode.
    pub open spec fn wf(&self) -> bool {
        &&& distinct_paths(path_views(self.entries@))
        &&& self.entries@.len() > 0 ==> self.mode is Some
    }

    /// An empty clipboard.
    pub fn new() -> (res: ClipboardManager)
        ensures
            res.wf(),
            res.entries@.len() == 0,
            res.mode is None,
    {
        ClipboardManager { entries: Vec::new(), mode: None }
    }

    /// Empties the clipboard.
    pub fn reset(&mut self)
        ensures
            final(self).wf(),
            final(self).entries@.len() == 0,
            final(self).mode is None,
    {
        self.entries = Vec::new();
        self.mode = None;
    }

    /// Whether `path` is on the clipboard.
    pub fn contains(&self, path: &str) -> (res: bool)
        ensures
            res == holds_path(path_views(self.entries@), path@),
    {
        let ghost s = path_views(self.entries@);
        let mut i: usize = 0;
        while i < self.entries.len()
            invariant
                i <= self.entries.len(),
                s == path_views(self.entries@),
                forall|k: int| 0 <= k < i ==> !paths::spec_same_path(#[trigger] s[k], path@),
            decreases self.entries.len() - i,
        {
            if paths::same_path(self.entries[i].as_str(), path) {
                assert(paths::spec_same_path(s[i as int], path@));
                return true;
            }
            i = i + 1;
        }
        false
    }

    /// Puts `added` on the clipboard with `mode`: what was there is dropped first where the
    /// behaviour is to replace; a path already there is not put there twice.
    pub fn add_to_clipboard(
        &mut self,
        behaviour: &ClipboardBehaviour,
        mode: ClipboardMode,
        added: &Vec<String>,
    )
        requires
            old(self).wf(),
        ensures
            final(self).wf(),
            final(self).mode == Some(mode),
            path_views(final(self).entries@) == with_paths(
                match *behaviour {
                    ClipboardBehaviour::Replace => Seq::<Seq<char>>::empty(),
                    ClipboardBehaviour::Addition => path_views(old(self).entries@),
                },
                path_views(added@),
            ),
    {
        match behaviour {
            ClipboardBehaviour::Replace => {
                self.entries = Vec::new();
            },
            ClipboardBehaviour::Addition => {},
        }
        let ghost base = path_views(self.entries@);
        assert(base =~= match *behaviour {
            ClipboardBehaviour::Replace => Seq::<Seq<char>>::empty(),
            ClipboardBehaviour::Addition => path_views(old(self).entries@),
        });
        assert(distinct_paths(base));
        let ghost adds = path_views(added@);
        let mut i: usize = 0;
        while i < added.len()
            invariant
                i <= added.len(),
                adds == path_views(added@),
                path_views(self.entries@) == with_paths(base, adds.subrange(0, i as int)),
                distinct_paths(path_views(self.entries@)),
            decreases added.len() - i,
        {
            assert(adds.subrange(0, i + 1).drop_last() =~= adds.subrange(0, i as int));
            assert(adds.subrange(0, i + 1).last() == adds[i as int]);
            if !self.contains(added[i].as_str()) {
                let ghost before = path_views(self.entries@);
                self.entries.push(text::owned(added[i].as_str()));
                assert(path_views(self.entries@) =~= before.push(adds[i as int]));
                assert forall|a: int, b: int|
                    0 <= a < b < path_views(self.entries@).len() implies !paths::spec_same_path(
                    #[trigger] path_views(self.entries@)[a],
                    #[trigger] path_views(self.entries@)[b],
                ) by {
                    if b == before.len() {
                        assert(path_views(self.entries@)[a] == before[a]);
                    } else {
                        assert(path_views(self.entries@)[a] == before[a]);
                        assert(path_views(self.entries@)[b] == before[b]);
                    }
                }
            }
            i = i + 1;
        }
        assert(adds.subrange(0, added.len() as int) =~= adds);
        self.mode = Some(mode);
    }

    /// What a paste takes from the clipboard: its mode and its paths, where it has a mode.
    pub fn paste_job(&self) -> (res: Option<(ClipboardMode, Vec<String>)>)
        ensures
            match self.mode {
                Some(m) => res matches Some(job) && job.0 == m && path_views(job.1@) == path_views(
                    self.entries@,
                ),
                None => res is None,
            },
    {
        match self.mode {
            Some(m) => {
                let mut out: Vec<String> = Vec::new();
                let mut i: usize = 0;
                while i < self.entries.len()
                    invariant
                        i <= self.entries.len(),
                        path_views(out@) == path_views(self.entries@).subrange(0, i as int),
                    decreases self.entries.len() - i,
                {
                    let ghost before = path_views(out@);
                    out.push(text::owned(self.entries[i].as_str()));
                    assert(path_views(out@) =~= before.push(self.entries@[i as int]@));
                    assert(path_views(out@) =~= path_views(self.entries@).subrange(0, i + 1));
                    i = i + 1;
                }
                assert(path_views(self.entries@).subrange(0, i as int) =~= path_views(
                    self.entries@,
                ));
                Some((m, out))
            },
            None => None,
        }
    }

    /// A paste has ended: the paths moved are no longer on the clipboard, and copied ones stay.
    pub fn pasted(&mut self)
        requires
            old(self).wf(),
        ensures
            final(self).wf(),
            old(self).mode == Some(ClipboardMode::Cut) ==> final(self).entries@.len() == 0
                && final(self).mode is None,
            old(self).mode != Some(ClipboardMode::Cut) ==> final(self).entries@ == old(
                self,
            ).entries@ && final(self).mode == old(self).mode,
    {
        match self.mode {
            Some(ClipboardMode::Cut) => self.reset(),
            _ => {},
        }
    }

    /// The icon an entry is drawn with: a copy or cut mark where it is on the clipboard, else
    /// its own.
    pub fn entry_icon(&self, entry: &Entry) -> (res: IconKind)
        requires
            self.wf(),
        ensures
            res == if holds_path(path_views(self.entries@), entry.path@) {
                match self.mode {
                    Some(ClipboardMode::Copy) => IconKind::Copy,
                    _ => IconKind::Scissors,
                }
            } else {
                entry.file_icon
            },
    {
        if self.contains(entry.path.as_str()) {
            match self.mode {
                Some(ClipboardMode::Copy) => IconKind::Copy,
                _ => IconKind::Scissors,
            }
        } else {
            entry.file_icon
        }
    }
}

} // verus!
