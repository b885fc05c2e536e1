//! The state of the explorer: entries of a folder, what is shown of them, what is selected,
//! the overlays and fields the user types into, and the decisions taken on key presses.

use crate::config::{KeybindAction, Sorting, ViewConf};
use crate::file::icons::IconKind;
use crate::file::PasteKind;
use crate::paths;
use crate::selection;
use rustc_hash::FxHashSet;
use crate::order;
use crate::text;
use vstd::prelude::*;

pub mod sorting;


verus! {

/// A property of an entry that can be shown, fetched, or sorted by.
#[derive(Clone, Copy, Debug, PartialEq, Eq, Structural)]
pub enum Property {
    Name,
    Accessed,
    Created,
    Type,
    Size,
    Path,
}

/// The dialogs that can cover the explorer.
#[derive(Clone, Copy, Debug, PartialEq, Eq, Structural)]
pub enum OverlayKind {
    Rename,
    CreateFile,
    CreateFolder,
    Paste,
    Delete,
    Metadata,
}

/// The dialog on top of the explorer, if any, with what the user typed into it.
#[derive(Debug)]
pub struct Overlay {
    pub buffer: String,
    pub error: String,
    pub path: Option<String>,
    pub kind: Option<OverlayKind>,
    pub entry: Option<Entry>,
}

impl Default for Overlay {
    fn default() -> (res: Overlay)
        ensures
            res.buffer@.len() == 0,
            res.error@.len() == 0,
            res.path is None,
            res.kind is None,
            res.entry is None,
    {
        Overlay { buffer: String::new(), error: String::new(), path: None, kind: None, entry: None }
    }
}

impl Overlay {
    /// Closes the dialog: no kind, no error, an empty buffer.
    pub fn reset(&mut self)
        ensures
            final(self).kind is None,
            final(self).error@.len() == 0,
            final(self).buffer@.len() == 0,
            final(self).path == old(self).path,
            final(self).entry == old(self).entry,
    {
        self.kind = None;
        self.error = String::new();
        self.buffer = String::new();
    }

    /// Replaces what the user typed.
    pub fn buffer(&mut self, buffer: String)
        ensures
            final(self).buffer == buffer,
            final(self).error == old(self).error,
            final(self).path == old(self).path,
            final(self).kind == old(self).kind,
            final(self).entry == old(self).entry,
    {
        self.buffer = buffer;
    }
}

/// The kinds of text field of a panel.
#[derive(Clone, Copy, Debug, PartialEq, Eq, Structural)]
pub enum FieldKind {
    Search,
}

/// The text field of a panel (the search box), with what is typed in it.
#[derive(Debug)]
pub struct Field {
    pub buffer: String,
    pub kind: Option<FieldKind>,
    pub focused: bool,
}

impl Default for Field {
    fn default() -> (res: Field)
        ensures
            res.buffer@.len() == 0,
            res.kind is None,
            !res.focused,
    {
        Field { buffer: String::new(), kind: None, focused: false }
    }
}

impl Field {
    /// Closes the field: empty, of no kind, not focused.
    pub fn reset(&mut self)
        ensures
            final(self).buffer@.len() == 0,
            final(self).kind is None,
            !final(self).focused,
    {
        self.buffer = String::new();
        self.kind = None;
        self.focused = false;
    }

    /// Replaces what is typed.
    pub fn buffer(&mut self, buffer: String)
        ensures
            final(self).buffer == buffer,
            final(self).kind == old(self).kind,
            final(self).focused == old(self).focused,
    {
        self.buffer = buffer;
    }

    /// Takes the keyboard focus away from the field.
    pub fn unfocus(&mut self)
        ensures
            !final(self).focused,
            final(self).buffer == old(self).buffer,
            final(self).kind == old(self).kind,
    {
        self.focused = false;
    }
}

/// The floating windows that can be opened.
#[derive(Clone, Copy, Debug, PartialEq, Eq, Structural)]
pub enum WindowKind {
    Clipboard,
}

/// Which floating windows are open.
#[derive(Clone, Copy, Debug, PartialEq, Eq, Structural)]
pub struct WindowsManager {
    pub clipboard: Option<bool>,
}

impl Default for WindowsManager {
    fn default() -> (res: WindowsManager)
        ensures
            res.clipboard is None,
    {
        WindowsManager { clipboard: None }
    }
}

impl WindowsManager {
    /// Closes a window.
    pub fn close(&mut self, kind: WindowKind)
        ensures
            final(self).clipboard is None,
    {
        match kind {
            WindowKind::Clipboard => self.clipboard = None,
        }
    }

    fn open(&mut self, kind: WindowKind)
        ensures
            final(self).clipboard == Some(true),
    {
        match kind {
            WindowKind::Clipboard => self.clipboard = Some(true),
        }
    }

    /// Opens a closed window, or closes an open one.
    pub fn toggle(&mut self, kind: WindowKind)
        ensures
            final(self).clipboard == toggled(old(self).clipboard),
    {
        match kind {
            WindowKind::Clipboard => {
                if self.clipboard.is_none() {
                    self.open(kind);
                } else {
                    self.close(kind);
                }
            },
        }
    }
}

/// Where the cursor goes from `cur` among `len` displayed entries: one down or one up, staying
/// at the last or the first.
pub open spec fn cursor_target(cur: int, len: int, direction: NavigateDirection) -> int {
    match direction {
        NavigateDirection::Down => if cur < len - 1 {
            cur + 1
        } else {
            cur
        },
        NavigateDirection::Up => if cur != 0 {
            cur - 1
        } else {
            cur
        },
    }
}

/// A window's state after a toggle: a closed window opens, an open one closes.
pub open spec fn toggled(state: Option<bool>) -> Option<bool> {
    if state is None {
        Some(true)
    } else {
        None
    }
}

/// Whether the items on the clipboard are to be copied or moved.
#[derive(Clone, Copy, Debug, PartialEq, Eq, Structural)]
pub enum ClipboardMode {
    Copy,
    Cut,
}

impl ClipboardMode {
    /// The word shown for the mode.
    pub fn label(&self) -> (res: String)
        ensures
            res@ == match *self {
                ClipboardMode::Copy => "copy"@,
                ClipboardMode::Cut => "cut"@,
            },
    {
        match self {
            ClipboardMode::Copy => text::owned("copy"),
            ClipboardMode::Cut => text::owned("cut"),
        }
    }
}

/// What was found on the disk of one item of a folder.
#[derive(Clone, Copy, Debug)]
pub struct TempEntry<'a> {
    pub name: &'a str,
    pub file_type: &'static str,
    pub file_icon: IconKind,
    pub path: &'a str,
    pub is_hidden: bool,
    pub accessed: Option<i64>,
    pub created: Option<i64>,
    pub file_size: Option<u64>,
    pub folder_size: Option<usize>,
}

/// How a notification looks and how long it stays.
#[derive(Clone, Copy, Debug, PartialEq, Eq, Structural)]
pub enum ToastKind {
    Info,
    Danger,
    Success,
    Operation,
}

/// A direction of the cursor.
#[derive(Clone, Copy, Debug, PartialEq, Eq, Structural)]
pub enum NavigateDirection {
    Up,
    Down,
}

impl Default for Property {
    fn default() -> (res: Property)
        ensures
            res == Property::Name,
    {
        Property::Name
    }
}

/// The name a property is shown and written under.
pub open spec fn property_label(p: Property) -> Seq<char> {
    match p {
        Property::Name => "name"@,
        Property::Accessed => "accessed"@,
        Property::Created => "created"@,
        Property::Type => "type"@,
        Property::Size => "size"@,
        Property::Path => "path"@,
    }
}

impl Property {
    /// The word shown for the property.
    pub fn label(&self) -> (res: String)
        ensures
            res@ == property_label(*self),
    {
        match self {
            Property::Name => text::owned("name"),
            Property::Accessed => text::owned("accessed"),
            Property::Created => text::owned("created"),
            Property::Type => text::owned("type"),
            Property::Size => text::owned("size"),
            Property::Path => text::owned("path"),
        }
    }
}

/// The row and column of a panel in the grid of panels.
#[derive(Clone, Copy, Debug, PartialEq, Eq, Structural)]
pub struct Position {
    pub r: usize,
    pub c: usize,
}

impl Default for Position {
    fn default() -> (res: Position)
        ensures
            res == (Position { r: 0, c: 0 }),
    {
        Position { r: 0, c: 0 }
    }
}

impl Position {
    /// The position written as `(row, column)`.
    pub fn label(&self) -> (res: String)
        ensures
            res@ == "("@ + text::spec_decimal(self.r as nat) + ", "@ + text::spec_decimal(self.c as nat)
                + ")"@,
    {
        let mut s = text::owned("(");
        s.append(text::decimal(self.r as u64).as_str());
        s.append(", ");
        s.append(text::decimal(self.c as u64).as_str());
        s.append(")");
        s
    }

    /// Where a panel appended in direction `dir` to the panel at this position goes: below or
    /// to the right moves one row or column on; above or to the left goes to the first row or
    /// column. Where no panel is at this position, the new one takes it.
    pub fn appended(&self, dir: &AppendDirection, occupied: bool) -> (res: Position)
        requires
            occupied ==> match *dir {
                AppendDirection::Up => 1 <= self.r % 0x10000 <= 0x7FFF,
                AppendDirection::Left => 1 <= self.c % 0x10000 <= 0x7FFF,
                AppendDirection::Down => self.r < usize::MAX,
                AppendDirection::Right => self.c < usize::MAX,
            },
        ensures
            !occupied ==> res == *self,
            occupied ==> res == match *dir {
                AppendDirection::Up => (Position { r: 0, c: self.c }),
                AppendDirection::Left => (Position { r: self.r, c: 0 }),
                AppendDirection::Down => (Position { r: (self.r + 1) as usize, c: self.c }),
                AppendDirection::Right => (Position { r: self.r, c: (self.c + 1) as usize }),
            },
    {
        if !occupied {
            return *self;
        }
        match dir {
            AppendDirection::Up => Position { r: 0, c: self.c },
            AppendDirection::Left => Position { r: self.r, c: 0 },
            AppendDirection::Down => Position { r: self.r + 1, c: self.c },
            AppendDirection::Right => Position { r: self.r, c: self.c + 1 },
        }
    }
}

/// Where a new panel goes relative to the focused one.
#[derive(Clone, Copy, Debug, PartialEq, Eq, Structural)]
pub enum AppendDirection {
    Up,
    Down,
    Left,
    Right,
}

/// One item of a folder listing.
#[derive(Clone, Debug)]
pub struct Entry {
    pub name: String,
    pub file_type: &'static str,
    pub file_icon: IconKind,
    pub path: String,
    pub using: bool,
    pub is_hidden: bool,
    pub accessed: Option<i64>,
    pub created: Option<i64>,
    pub file_size: Option<u64>,
    pub folder_size: Option<usize>,
}

/// The entries of the current folder, which of them are displayed and in which order, and
/// the position of the cursor among the displayed ones.
#[derive(Clone, Debug)]
pub struct EntriesManager {
    pub entries: Vec<Entry>,
    pub displaying: Vec<usize>,
    pub current_index: usize,
    pub scroll_signal: bool,
}


/// An entry that holds nothing: no name, type or path, an unknown icon, not in use, nothing read.
pub open spec fn blank_entry(e: Entry) -> bool {
    &&& e.name@.len() == 0
    &&& e.file_type@ == ""@
    &&& e.file_icon == IconKind::QuestionMark
    &&& e.path@.len() == 0
    &&& !e.using
    &&& !e.is_hidden
    &&& e.accessed is None
    &&& e.created is None
    &&& e.file_size is None
    &&& e.folder_size is None
}

impl Default for Entry {
    fn default() -> (res: Entry)
        ensures
            blank_entry(res),
    {
        Entry {
            name: String::new(),
            file_icon: IconKind::QuestionMark,
            file_type: "",
            path: String::new(),
            using: false,
            is_hidden: false,
            accessed: None,
            created: None,
            file_size: None,
            folder_size: None,
        }
    }
}

/// `e` is the entry that `push` makes of `t`, over an entry whose name was `name` and whose
/// path was `path`: the name and path are appended to, the rest is taken from `t`.
pub open spec fn pushed_entry(e: Entry, name: Seq<char>, path: Seq<char>, t: TempEntry) -> bool {
    &&& e.name@ == name + t.name@
    &&& e.path@ == paths::spec_path_push(path, t.path@)
    &&& e.using
    &&& e.is_hidden == t.is_hidden
    &&& e.file_size == t.file_size
    &&& e.accessed == t.accessed
    &&& e.created == t.created
    &&& e.folder_size == t.folder_size
    &&& e.file_type == t.file_type
    &&& e.file_icon == t.file_icon
}

impl Default for EntriesManager {
    fn default() -> (res: EntriesManager)
        ensures
            res.entries@.len() == 31,
            forall|i: int| 0 <= i < 31 ==> blank_entry(#[trigger] res.entries@[i]),
            res.displaying@.len() == 0,
            res.current_index == 0,
            !res.scroll_signal,
    {
        let mut entries: Vec<Entry> = Vec::new();
        let mut i: usize = 0;
        while i <= 30
            invariant
                i <= 31,
                entries.len() == i,
                forall|k: int| 0 <= k < i ==> blank_entry(#[trigger] entries@[k]),
            decreases 31 - i,
        {
            entries.push(Entry::default());
            i = i + 1;
        }
        EntriesManager { entries, displaying: Vec::new(), current_index: 0, scroll_signal: false }
    }
}

impl EntriesManager {
    /// The entry displayed at position `index`, if that position names an entry.
    pub fn entry(&self, index: &usize) -> (res: Option<&Entry>)
        requires
            *index < self.displaying@.len(),
        ensures
            res == if self.displaying@[*index as int] < self.entries@.len() {
                Some(&self.entries@[self.displaying@[*index as int] as int])
            } else {
                None
            },
    {
        let i = self.displaying[*index];
        if i < self.entries.len() {
            Some(&self.entries[i])
        } else {
            None
        }
    }

    /// Writes what was found of an item into the entry at `index` (appending to its name and
    /// path), or into a new entry at the end where there is no entry at `index`.
    pub fn push(&mut self, temp_entry: &TempEntry, index: usize)
        ensures
            final(self).displaying == old(self).displaying,
            final(self).current_index == old(self).current_index,
            final(self).scroll_signal == old(self).scroll_signal,
            index < old(self).entries@.len() ==> {
                &&& final(self).entries@.len() == old(self).entries@.len()
                &&& forall|j: int|
                    0 <= j < old(self).entries@.len() && j != index ==> #[trigger] final(self).entries@[j]
                        == old(self).entries@[j]
                &&& pushed_entry(
                    final(self).entries@[index as int],
                    old(self).entries@[index as int].name@,
                    old(self).entries@[index as int].path@,
                    *temp_entry,
                )
            },
            index >= old(self).entries@.len() ==> {
                &&& final(self).entries@.len() == old(self).entries@.len() + 1
                &&& forall|j: int|
                    0 <= j < old(self).entries@.len() ==> #[trigger] final(self).entries@[j]
                        == old(self).entries@[j]
                &&& pushed_entry(
                    final(self).entries@[old(self).entries@.len() as int],
                    Seq::empty(),
                    Seq::empty(),
                    *temp_entry,
                )
            },
    {
        if index < self.entries.len() {
            let old_entry = &self.entries[index];
            let name = text::concat(old_entry.name.as_str(), temp_entry.name);
            let path = paths::path_push(old_entry.path.as_str(), temp_entry.path);
            let e = Entry {
                name,
                file_type: temp_entry.file_type,
                file_icon: temp_entry.file_icon,
                path,
                using: true,
                is_hidden: temp_entry.is_hidden,
                accessed: temp_entry.accessed,
                created: temp_entry.created,
                file_size: temp_entry.file_size,
                folder_size: temp_entry.folder_size,
            };
            self.entries.set(index, e);
            return ;
        }
        let name = text::concat("", temp_entry.name);
        let path = paths::path_push("", temp_entry.path);
        proof {
            reveal_strlit("");
        }
        let e = Entry {
            name,
            file_type: temp_entry.file_type,
            file_icon: temp_entry.file_icon,
            path,
            using: true,
            is_hidden: temp_entry.is_hidden,
            accessed: temp_entry.accessed,
            created: temp_entry.created,
            file_size: temp_entry.file_size,
            folder_size: temp_entry.folder_size,
        };
        self.entries.push(e);
    }

    /// Every displayed index names an entry.
    pub open spec fn displays_valid(&self) -> bool {
        forall|i: int| 0 <= i < self.displaying@.len() ==> #[trigger] self.displaying@[i] < self.entries@.len()
    }

    /// Orders the displayed entries: hidden ones first, then each of the two groups by
    /// `sorting_by` (ties keep their earlier order), each group reversed when `reversed`.
    pub fn sort(&mut self, sorting_by: &Property, reversed: bool)
        requires
            old(self).displays_valid(),
        ensures
            final(self).entries == old(self).entries,
            final(self).current_index == old(self).current_index,
            final(self).scroll_signal == old(self).scroll_signal,
            final(self).displays_valid(),
            sorting::sorted_for_display(
                old(self).entries@,
                old(self).displaying@,
                final(self).displaying@,
                *sorting_by,
                reversed,
            ),
    {
        let n = self.displaying.len();
        let new_order = sorting::display_order(&self.entries, &self.displaying, sorting_by, reversed);
        let mut shown: Vec<usize> = Vec::new();
        let mut i: usize = 0;
        while i < n
            invariant
                n == self.displaying.len(),
                new_order.len() == n,
                forall|k: int| 0 <= k < n ==> #[trigger] new_order@[k] < n,
                i <= n,
                shown.len() == i,
                forall|k: int| 0 <= k < i ==> #[trigger] shown@[k] == self.displaying@[new_order@[k] as int],
            decreases n - i,
        {
            shown.push(self.displaying[new_order[i]]);
            i = i + 1;
        }
        proof {
            let m = Seq::new(n as nat, |k: int| new_order@[k] as int);
            assert(order::is_index_perm(m, n as int));
            assert forall|a: int, b: int| 0 <= a < b < n implies sorting::shown_before(
                self.entries@[shown@[a] as int],
                m[a],
                self.entries@[shown@[b] as int],
                m[b],
                *sorting_by,
                reversed,
            ) by {
                assert(sorting::display_before(self.entries@, self.displaying@, new_order@[a] as int, new_order@[b] as int, *sorting_by, reversed));
            }
        }
        self.displaying = shown;
    }
}

/// The text that filters the listing: what is typed in the search field, trimmed, or nothing.
pub open spec fn filter_text(field: Field) -> Seq<char> {
    if field.kind == Some(FieldKind::Search) {
        text::spec_trim(field.buffer@)
    } else {
        Seq::empty()
    }
}

/// An entry is listed: it is in use, it is not hidden unless hidden entries are viewed, and
/// its name contains the filter text.
pub open spec fn is_listed(e: Entry, view_hidden: bool, filter: Seq<char>) -> bool {
    e.using && (view_hidden || !e.is_hidden) && text::spec_contains(e.name@, filter)
}

/// The indices, in order, of the first `n` entries that are listed.
pub open spec fn listed_indices(entries: Seq<Entry>, view_hidden: bool, filter: Seq<char>, n: int) -> Seq<usize>
    decreases n,
{
    if n <= 0 {
        Seq::empty()
    } else {
        let rest = listed_indices(entries, view_hidden, filter, n - 1);
        if is_listed(entries[n - 1], view_hidden, filter) {
            rest.push((n - 1) as usize)
        } else {
            rest
        }
    }
}

proof fn lemma_listed_indices_bound(entries: Seq<Entry>, view_hidden: bool, filter: Seq<char>, n: int)
    ensures
        forall|i: int|
            0 <= i < listed_indices(entries, view_hidden, filter, n).len() ==> #[trigger] listed_indices(
                entries,
                view_hidden,
                filter,
                n,
            )[i] < n,
    decreases n,
{
    if n > 0 {
        lemma_listed_indices_bound(entries, view_hidden, filter, n - 1);
        let rest = listed_indices(entries, view_hidden, filter, n - 1);
        if is_listed(entries[n - 1], view_hidden, filter) {
            assert forall|i: int| 0 <= i < rest.push((n - 1) as usize).len() implies #[trigger] rest.push(
                (n - 1) as usize,
            )[i] < n by {
                if i < rest.len() {
                    assert(rest.push((n - 1) as usize)[i] == rest[i]);
                }
            }
        }
    }
}

/// The last displayed position, among the first `n`, whose entry has the path `path`, or -1.
pub open spec fn last_match(entries: Seq<Entry>, d: Seq<usize>, path: Seq<char>, n: int) -> int
    decreases n,
{
    if n <= 0 {
        -1
    } else if d[n - 1] < entries.len() && paths::spec_same_path(entries[d[n - 1] as int].path@, path) {
        n - 1
    } else {
        last_match(entries, d, path, n - 1)
    }
}

/// The displayed positions from `lo` to `hi` hold the entries in `s`... as a set.
pub open spec fn shown_between(d: Seq<usize>, lo: int, hi: int) -> Set<usize> {
    Set::new(|x: usize| exists|i: int| lo <= i <= hi && 0 <= i < d.len() && d[i] == x)
}

/// The selection after a click or a cursor move onto displayed position `index`: without
/// control or shift it is that entry alone; with shift it adds everything between the cursor
/// and `index`; with control the entry at `index` is toggled (taken out if it was selected).
pub open spec fn modified_selection(
    sel: Set<usize>,
    d: Seq<usize>,
    cursor: int,
    index: int,
    is_ctrled: bool,
    is_shifted: bool,
) -> Set<usize> {
    let s0 = if !is_shifted && !is_ctrled {
        Set::empty()
    } else {
        sel
    };
    let lo = if index < cursor {
        index
    } else {
        cursor
    };
    let hi = if index < cursor {
        cursor
    } else {
        index
    };
    let s1 = if is_shifted {
        s0.union(shown_between(d, lo, hi))
    } else {
        s0
    };
    let e = d[index];
    if is_ctrled && s1.contains(e) {
        s1.remove(e)
    } else {
        s1.insert(e)
    }
}

/// The selection after adding back, among the displayed entries, the ones whose path is in
/// `paths`.
pub open spec fn restored_selection(sel: Set<usize>, entries: Seq<Entry>, d: Seq<usize>, paths: Set<Seq<char>>) -> Set<usize> {
    sel.union(
        Set::new(
            |id: usize|
                id < entries.len() && d.contains(id) && exists|q: Seq<char>| #[trigger]
                    paths.contains(q) && paths::spec_same_path(q, entries[id as int].path@),
        ),
    )
}

/// The paths of the selected entries.
pub open spec fn selected_path_set(sel: Set<usize>, entries: Seq<Entry>) -> Set<Seq<char>> {
    Set::new(|q: Seq<char>| exists|s: usize| #[trigger] sel.contains(s) && entries[s as int].path@ == q)
}

proof fn lemma_push_to_set(s: Seq<Seq<char>>, q: Seq<char>)
    ensures
        s.push(q).to_set() == s.to_set().insert(q),
{
    assert forall|x: Seq<char>| s.push(q).to_set().contains(x) implies s.to_set().insert(q).contains(x) by {
        let i = choose|i: int| 0 <= i < s.push(q).len() && s.push(q)[i] == x;
        if i < s.len() {
            assert(s[i] == x);
        }
    }
    assert forall|x: Seq<char>| s.to_set().insert(q).contains(x) implies s.push(q).to_set().contains(x) by {
        if x == q {
            assert(s.push(q)[s.len() as int] == q);
        } else {
            let i = choose|i: int| 0 <= i < s.len() && s[i] == x;
            assert(s.push(q)[i] == x);
        }
    }
    assert(s.push(q).to_set() =~= s.to_set().insert(q));
}

proof fn lemma_restore_step(
    s0: Set<usize>,
    ents: Seq<Entry>,
    d: Seq<usize>,
    prev: Set<Seq<char>>,
    q: Seq<char>,
    before: Set<usize>,
)
    requires
        before == restored_selection(s0, ents, d, prev),
    ensures
        restored_selection(s0, ents, d, prev.insert(q)) == before.union(
            Set::new(
                |x: usize| x < ents.len() && d.contains(x) && paths::spec_same_path(q, ents[x as int].path@),
            ),
        ),
{
    let next = prev.insert(q);
    let add = Set::new(
        |x: usize| x < ents.len() && d.contains(x) && paths::spec_same_path(q, ents[x as int].path@),
    );
    assert forall|x: usize| restored_selection(s0, ents, d, next).contains(x) implies before.union(add).contains(x) by {
        if !s0.contains(x) {
            let qq = choose|qq: Seq<char>| #[trigger] next.contains(qq) && paths::spec_same_path(qq, ents[x as int].path@);
            if qq != q {
                assert(prev.contains(qq));
            }
        }
    }
    assert forall|x: usize| before.union(add).contains(x) implies restored_selection(s0, ents, d, next).contains(x) by {
        if add.contains(x) {
            assert(next.contains(q));
        } else if !s0.contains(x) {
            let qq = choose|qq: Seq<char>| #[trigger] prev.contains(qq) && paths::spec_same_path(qq, ents[x as int].path@);
            assert(next.contains(qq));
        }
    }
    assert(restored_selection(s0, ents, d, next) =~= before.union(add));
}

/// `new` is `old` refreshed for the setting `view_hidden` after the hidden entries were shown or
/// hidden: the listing is in display order, the cursor is on the first displayed entry's path,
/// the view scrolls there, and the entries still listed that were selected stay selected.
pub open spec fn hidden_view_refreshed(old: Panel, new: Panel, view_hidden: bool, sorting: Sorting) -> bool {
    &&& new.entries_manager.entries == old.entries_manager.entries
    &&& new.field == old.field
    &&& new.current_path == old.current_path
    &&& new.entries_manager.displaying@.len() > 0
    &&& sorting::sorted_for_display(
        old.entries_manager.entries@,
        listed_indices(
            old.entries_manager.entries@,
            view_hidden,
            filter_text(old.field),
            old.entries_manager.entries@.len() as int,
        ),
        new.entries_manager.displaying@,
        sorting.sorting_by,
        sorting.reversed,
    )
    &&& new.entries_manager.current_index == last_match(
        old.entries_manager.entries@,
        new.entries_manager.displaying@,
        old.entries_manager.entries@[new.entries_manager.displaying@[0] as int].path@,
        new.entries_manager.displaying@.len() as int,
    )
    &&& new.entries_manager.scroll_signal
    &&& new.selected@ == restored_selection(
        Set::<usize>::empty(),
        old.entries_manager.entries@,
        new.entries_manager.displaying@,
        selected_path_set(old.selected@, old.entries_manager.entries@),
    )
}

/// One pane of the explorer: a folder, its entries, the selection, and the search field.
#[derive(Debug)]
pub struct Panel {
    pub current_path: String,
    pub entries_manager: EntriesManager,
    pub selected: FxHashSet<usize>,
    pub field: Field,
}

impl Panel {
    /// Displayed and selected indices all name entries.
    pub open spec fn wf(&self) -> bool {
        &&& self.entries_manager.displays_valid()
        &&& forall|s: usize| #[trigger] self.selected@.contains(s) ==> s < self.entries_manager.entries@.len()
    }

    /// A panel on `path`, with the default entries, nothing selected and the field closed.
    pub fn new(path: &str) -> (res: Panel)
        ensures
            res.current_path@ == path@,
            res.entries_manager.entries@.len() == 31,
            forall|i: int| 0 <= i < 31 ==> blank_entry(#[trigger] res.entries_manager.entries@[i]),
            res.entries_manager.displaying@.len() == 0,
            res.entries_manager.current_index == 0,
            res.selected@ == Set::<usize>::empty(),
            res.field.kind is None,
            res.wf(),
    {
        Panel {
            current_path: text::owned(path),
            entries_manager: EntriesManager::default(),
            selected: selection::empty_selection(),
            field: Field::default(),
        }
    }

    /// Recomputes what is displayed: the entries in use, hidden ones only when `view_hidden`,
    /// whose name contains the search text, in display order; the cursor goes to the top and the
    /// selection is emptied.
    pub fn filter_and_sort(&mut self, view_hidden: bool, sorting: &Sorting)
        ensures
            final(self).wf(),
            final(self).entries_manager.entries == old(self).entries_manager.entries,
            final(self).entries_manager.current_index == 0,
            final(self).entries_manager.scroll_signal == old(self).entries_manager.scroll_signal,
            final(self).selected@ == Set::<usize>::empty(),
            final(self).field == old(self).field,
            final(self).current_path == old(self).current_path,
            sorting::sorted_for_display(
                old(self).entries_manager.entries@,
                listed_indices(
                    old(self).entries_manager.entries@,
                    view_hidden,
                    filter_text(old(self).field),
                    old(self).entries_manager.entries@.len() as int,
                ),
                final(self).entries_manager.displaying@,
                sorting.sorting_by,
                sorting.reversed,
            ),
    {
        self.entries_manager.current_index = 0;
        selection::clear(&mut self.selected);
        let searching = match self.field.kind {
            Some(FieldKind::Search) => true,
            None => false,
        };
        let filter = if searching {
            text::trim(self.field.buffer.as_str())
        } else {
            let empty = String::new();
            assert(empty@ =~= Seq::<char>::empty());
            empty
        };
        let ghost f = filter_text(self.field);
        proof {
            if searching {
                assert(self.field.kind == Some(FieldKind::Search));
                assert(filter@ == text::spec_trim(self.field.buffer@));
            } else {
                assert(self.field.kind is None);
                assert(filter@ == Seq::<char>::empty());
            }
        }
        assert(filter@ == f);
        let ghost ents = self.entries_manager.entries@;
        let mut shown: Vec<usize> = Vec::new();
        let mut i: usize = 0;
        while i < self.entries_manager.entries.len()
            invariant
                ents == self.entries_manager.entries@,
                filter@ == f,
                i <= ents.len(),
                shown@ == listed_indices(ents, view_hidden, f, i as int),
            decreases ents.len() - i,
        {
            let entry = &self.entries_manager.entries[i];
            if entry.using && (view_hidden || !entry.is_hidden) && text::contains(
                entry.name.as_str(),
                filter.as_str(),
            ) {
                shown.push(i);
            }
            i = i + 1;
        }
        proof {
            lemma_listed_indices_bound(ents, view_hidden, f, ents.len() as int);
        }
        self.entries_manager.displaying = shown;
        self.entries_manager.sort(&sorting.sorting_by, sorting.reversed);
    }

    /// Moves the cursor to the last displayed entry whose path is `path`, asking the view to
    /// scroll there; where none has that path nothing changes.
    pub fn highlight_path(&mut self, path: &str)
        ensures
            final(self).entries_manager.entries == old(self).entries_manager.entries,
            final(self).entries_manager.displaying == old(self).entries_manager.displaying,
            final(self).selected == old(self).selected,
            final(self).field == old(self).field,
            final(self).current_path == old(self).current_path,
            ({
                let k = last_match(
                    old(self).entries_manager.entries@,
                    old(self).entries_manager.displaying@,
                    path@,
                    old(self).entries_manager.displaying@.len() as int,
                );
                if k >= 0 {
                    final(self).entries_manager.current_index == k
                        && final(self).entries_manager.scroll_signal
                } else {
                    final(self).entries_manager.current_index == old(
                        self,
                    ).entries_manager.current_index && final(self).entries_manager.scroll_signal
                        == old(self).entries_manager.scroll_signal
                }
            }),
    {
        let ghost ents = self.entries_manager.entries@;
        let ghost d = self.entries_manager.displaying@;
        let ghost start = self.entries_manager.current_index;
        let ghost start_scroll = self.entries_manager.scroll_signal;
        let n = self.entries_manager.displaying.len();
        let mut i: usize = 0;
        while i < n
            invariant
                ents == self.entries_manager.entries@,
                d == self.entries_manager.displaying@,
                n == d.len(),
                i <= n,
                self.entries_manager.entries == old(self).entries_manager.entries,
                self.entries_manager.displaying == old(self).entries_manager.displaying,
                self.selected == old(self).selected,
                self.field == old(self).field,
                self.current_path == old(self).current_path,
                ({
                    let k = last_match(ents, d, path@, i as int);
                    if k >= 0 {
                        self.entries_manager.current_index == k && self.entries_manager.scroll_signal
                    } else {
                        self.entries_manager.current_index == start && self.entries_manager.scroll_signal
                            == start_scroll
                    }
                }),
            decreases n - i,
        {
            let entry_index = self.entries_manager.displaying[i];
            if entry_index < self.entries_manager.entries.len() {
                if paths::same_path(self.entries_manager.entries[entry_index].path.as_str(), path) {
                    self.entries_manager.current_index = i;
                    self.entries_manager.scroll_signal = true;
                }
            }
            i = i + 1;
        }
    }

    /// Selects on a click or a cursor move onto displayed position `index` (see
    /// `modified_selection`), and moves the cursor there.
    pub fn modify_selected(&mut self, index: usize, is_ctrled: bool, is_shifted: bool)
        requires
            old(self).wf(),
            index < old(self).entries_manager.displaying@.len(),
            is_shifted ==> old(self).entries_manager.current_index < old(
                self,
            ).entries_manager.displaying@.len(),
        ensures
            final(self).wf(),
            final(self).selected@ == modified_selection(
                old(self).selected@,
                old(self).entries_manager.displaying@,
                old(self).entries_manager.current_index as int,
                index as int,
                is_ctrled,
                is_shifted,
            ),
            final(self).entries_manager.current_index == index,
            final(self).entries_manager.entries == old(self).entries_manager.entries,
            final(self).entries_manager.displaying == old(self).entries_manager.displaying,
            final(self).entries_manager.scroll_signal == old(self).entries_manager.scroll_signal,
            final(self).field == old(self).field,
            final(self).current_path == old(self).current_path,
    {
        let ghost d = self.entries_manager.displaying@;
        let ghost cursor = self.entries_manager.current_index as int;
        if !is_shifted && !is_ctrled {
            selection::clear(&mut self.selected);
        }
        let end_index = if is_shifted {
            self.entries_manager.current_index
        } else {
            index
        };
        if is_shifted {
            let lo = if index < end_index {
                index
            } else {
                end_index
            };
            let hi = if index < end_index {
                end_index
            } else {
                index
            };
            let ghost s0 = self.selected@;
            let mut i: usize = lo;
            while i <= hi
                invariant
                    lo <= hi < d.len(),
                    hi < self.entries_manager.displaying.len(),
                    lo <= i <= hi + 1,
                    d == self.entries_manager.displaying@,
                    self.entries_manager.displays_valid(),
                    self.entries_manager.entries == old(self).entries_manager.entries,
                    self.entries_manager.displaying == old(self).entries_manager.displaying,
                    self.entries_manager.current_index == old(self).entries_manager.current_index,
                    self.entries_manager.scroll_signal == old(self).entries_manager.scroll_signal,
                    self.field == old(self).field,
                    self.current_path == old(self).current_path,
                    self.selected@ == s0.union(shown_between(d, lo as int, i - 1)),
                decreases hi + 1 - i,
            {
                let e = self.entries_manager.displaying[i];
                selection::insert(&mut self.selected, e);
                assert(s0.union(shown_between(d, lo as int, i as int)) =~= s0.union(
                    shown_between(d, lo as int, i - 1),
                ).insert(e));
                i = i + 1;
            }
        }
        let entry_index = self.entries_manager.displaying[index];
        if is_ctrled {
            if selection::contains(&self.selected, entry_index) {
                selection::remove(&mut self.selected, entry_index);
                self.entries_manager.current_index = index;
                proof {
                    assert(final(self).selected@ =~= modified_selection(old(self).selected@, d, cursor, index as int, is_ctrled, is_shifted));
                    assert forall|s: usize| #[trigger] self.selected@.contains(s) implies s < self.entries_manager.entries@.len() by {
                        if !old(self).selected@.contains(s) {
                            let i = choose|i: int| 0 <= i < d.len() && d[i] == s;
                        }
                    }
                }
                return ;
            } else {
                selection::insert(&mut self.selected, entry_index);
            }
        }
        self.entries_manager.current_index = index;
        selection::insert(&mut self.selected, entry_index);
        proof {
            assert(self.selected@ =~= modified_selection(old(self).selected@, d, cursor, index as int, is_ctrled, is_shifted));
            assert forall|s: usize| #[trigger] self.selected@.contains(s) implies s < self.entries_manager.entries@.len() by {
                if !old(self).selected@.contains(s) && s != entry_index {
                    let i = choose|i: int| 0 <= i < d.len() && d[i] == s;
                }
            }
        }
    }

    /// Clicks on displayed position `index`: an entry not yet selected is selected, replacing a
    /// selection of one entry and adding to a larger one; the cursor moves to `index`.
    pub fn swap_selected(&mut self, index: &usize)
        requires
            old(self).wf(),
        ensures
            final(self).wf(),
            final(self).selected@ == if *index < old(self).entries_manager.displaying@.len() && !old(
                self,
            ).selected@.contains(old(self).entries_manager.displaying@[*index as int]) {
                (if old(self).selected@.len() == 1 {
                    Set::<usize>::empty()
                } else {
                    old(self).selected@
                }).insert(old(self).entries_manager.displaying@[*index as int])
            } else {
                old(self).selected@
            },
            final(self).entries_manager.current_index == *index,
            final(self).entries_manager.entries == old(self).entries_manager.entries,
            final(self).entries_manager.displaying == old(self).entries_manager.displaying,
            final(self).entries_manager.scroll_signal == old(self).entries_manager.scroll_signal,
            final(self).field == old(self).field,
            final(self).current_path == old(self).current_path,
    {
        if *index < self.entries_manager.displaying.len() {
            let entry_index = self.entries_manager.displaying[*index];
            if !selection::contains(&self.selected, entry_index) {
                if selection::len(&self.selected) == 1 {
                    selection::clear(&mut self.selected);
                }
                selection::insert(&mut self.selected, entry_index);
            }
        }
        self.entries_manager.current_index = *index;
    }

    /// Empties the selection.
    pub fn clear_selected(&mut self)
        ensures
            final(self).selected@ == Set::<usize>::empty(),
            final(self).entries_manager == old(self).entries_manager,
            final(self).field == old(self).field,
            final(self).current_path == old(self).current_path,
    {
        selection::clear(&mut self.selected);
    }

    /// Moves the cursor one displayed entry up or down (staying at either end), asks the view to
    /// scroll, and selects as `modify_selected` does.
    pub fn navigate_index(&mut self, direction: &NavigateDirection, is_ctrled: bool, is_shifted: bool)
        requires
            old(self).wf(),
            old(self).entries_manager.displaying@.len() > 0,
            old(self).entries_manager.current_index < old(self).entries_manager.displaying@.len(),
        ensures
            ({
                let cur = old(self).entries_manager.current_index as int;
                let len = old(self).entries_manager.displaying@.len() as int;
                let target = cursor_target(cur, len, *direction);
                &&& final(self).entries_manager.current_index == target
                &&& final(self).selected@ == modified_selection(
                    old(self).selected@,
                    old(self).entries_manager.displaying@,
                    cur,
                    target,
                    is_ctrled,
                    is_shifted,
                )
            }),
            final(self).wf(),
            final(self).entries_manager.scroll_signal,
            final(self).entries_manager.entries == old(self).entries_manager.entries,
            final(self).entries_manager.displaying == old(self).entries_manager.displaying,
            final(self).field == old(self).field,
            final(self).current_path == old(self).current_path,
    {
        let mut current_index: usize = self.entries_manager.current_index;
        match direction {
            NavigateDirection::Down => {
                if current_index < self.entries_manager.displaying.len() - 1 {
                    current_index = current_index + 1;
                }
            },
            NavigateDirection::Up => {
                if current_index != 0 {
                    current_index = current_index - 1;
                }
            },
        }
        self.entries_manager.scroll_signal = true;
        self.modify_selected(current_index, is_ctrled, is_shifted);
    }

    /// The paths of the selected entries, each once, in the selection's own order.
    pub fn selected_paths(&self) -> (res: Vec<String>)
        requires
            self.wf(),
        ensures
            lists_selected_paths(res@, self.selected@, self.entries_manager.entries@),
    {
        let items = selection::items(&self.selected);
        let mut out: Vec<String> = Vec::new();
        let mut i: usize = 0;
        while i < items.len()
            invariant
                items@.to_set() == self.selected@,
                self.wf(),
                i <= items.len(),
                out.len() == i,
                forall|k: int| 0 <= k < i ==> #[trigger] out@[k]@ == self.entries_manager.entries@[items@[k] as int].path@,
            decreases items.len() - i,
        {
            assert(items@.to_set().contains(items@[i as int]));
            let e = items[i];
            out.push(self.entries_manager.entries[e].path.clone());
            i = i + 1;
        }
        out
    }

    /// Selects again, among the displayed entries, those whose path is in `paths`.
    pub fn restore_selection(&mut self, paths: &Vec<String>)
        requires
            old(self).wf(),
        ensures
            final(self).wf(),
            final(self).selected@ == restored_selection(
                old(self).selected@,
                old(self).entries_manager.entries@,
                old(self).entries_manager.displaying@,
                paths@.map_values(|p: String| p@).to_set(),
            ),
            final(self).entries_manager == old(self).entries_manager,
            final(self).field == old(self).field,
            final(self).current_path == old(self).current_path,
    {
        let ghost ents = self.entries_manager.entries@;
        let ghost d = self.entries_manager.displaying@;
        let ghost pset = paths@.map_values(|p: String| p@).to_set();
        let ghost s0 = self.selected@;
        let mut pi: usize = 0;
        while pi < paths.len()
            invariant
                self.wf(),
                ents == self.entries_manager.entries@,
                d == self.entries_manager.displaying@,
                self.entries_manager == old(self).entries_manager,
                self.field == old(self).field,
                self.current_path == old(self).current_path,
                pi <= paths.len(),
                self.selected@ == restored_selection(
                    s0,
                    ents,
                    d,
                    paths@.subrange(0, pi as int).map_values(|p: String| p@).to_set(),
                ),
            decreases paths.len() - pi,
        {
            let ghost before = self.selected@;
            let ghost prev = paths@.subrange(0, pi as int).map_values(|p: String| p@).to_set();
            let ghost next = paths@.subrange(0, pi + 1).map_values(|p: String| p@).to_set();
            let ghost q = paths@[pi as int]@;
            proof {
                let sa = paths@.subrange(0, pi as int).map_values(|p: String| p@);
                let sb = paths@.subrange(0, pi + 1).map_values(|p: String| p@);
                assert(sb =~= sa.push(q));
                lemma_push_to_set(sa, q);
            }
            let mut id: usize = 0;
            while id < self.entries_manager.entries.len()
                invariant
                    self.wf(),
                    ents == self.entries_manager.entries@,
                    d == self.entries_manager.displaying@,
                    self.entries_manager == old(self).entries_manager,
                    self.field == old(self).field,
                    self.current_path == old(self).current_path,
                    pi < paths.len(),
                    q == paths@[pi as int]@,
                    id <= ents.len(),
                    self.selected@ == before.union(
                        Set::new(
                            |x: usize|
                                x < id && d.contains(x) && paths::spec_same_path(q, ents[x as int].path@),
                        ),
                    ),
                decreases ents.len() - id,
            {
                let ghost sel_before = self.selected@;
                if paths::same_path(paths[pi].as_str(), self.entries_manager.entries[id].path.as_str()) {
                    let mut k: usize = 0;
                    let mut found = false;
                    while k < self.entries_manager.displaying.len()
                        invariant
                            d == self.entries_manager.displaying@,
                            k <= d.len(),
                            found == exists|j: int| 0 <= j < k && d[j] == id,
                        decreases d.len() - k,
                    {
                        if self.entries_manager.displaying[k] == id {
                            found = true;
                        }
                        k = k + 1;
                    }
                    if found {
                        selection::insert(&mut self.selected, id);
                    }
                }
                assert(self.selected@ =~= before.union(
                    Set::new(
                        |x: usize|
                            x < id + 1 && d.contains(x) && paths::spec_same_path(q, ents[x as int].path@),
                    ),
                ));
                id = id + 1;
            }
            proof {
                lemma_restore_step(s0, ents, d, prev, q, before);
            }
            pi = pi + 1;
        }
        assert(paths@.subrange(0, paths.len() as int) =~= paths@);
    }
}

/// `res` lists the paths of the selected entries, each selected entry once, in some order.
pub open spec fn lists_selected_paths(res: Seq<String>, sel: Set<usize>, entries: Seq<Entry>) -> bool {
    exists|order: Seq<usize>|
        #![trigger order.to_set()]
        order.to_set() == sel && order.no_duplicates() && order.len() == res.len() && forall|i: int|
            0 <= i < order.len() ==> #[trigger] res[i]@ == entries[order[i] as int].path@
}

/// `p` shows `entries` filtered through `field`'s text (and `view_hidden`) and ordered by
/// `sorting`, with the cursor at the top and nothing selected.
pub open spec fn refreshed(entries: Seq<Entry>, field: Field, p: Panel, view_hidden: bool, sorting: Sorting) -> bool {
    &&& p.wf()
    &&& p.entries_manager.entries@ == entries
    &&& p.entries_manager.current_index == 0
    &&& p.selected@ == Set::<usize>::empty()
    &&& sorting::sorted_for_display(
        entries,
        listed_indices(entries, view_hidden, filter_text(field), entries.len() as int),
        p.entries_manager.displaying@,
        sorting.sorting_by,
        sorting.reversed,
    )
}

proof fn lemma_last_match_found(entries: Seq<Entry>, d: Seq<usize>, path: Seq<char>, n: int, j: int)
    requires
        0 <= j < n <= d.len(),
        d[j] < entries.len(),
        paths::spec_same_path(entries[d[j] as int].path@, path),
    ensures
        last_match(entries, d, path, n) >= j,
    decreases n,
{
    if n - 1 != j {
        if !(d[n - 1] < entries.len() && paths::spec_same_path(entries[d[n - 1] as int].path@, path)) {
            lemma_last_match_found(entries, d, path, n - 1, j);
        }
    }
}

impl Panel {
    /// The indices of the entries that `filter_and_sort` would list, in entry order.
    pub fn listed_entries(&self, view_hidden: bool) -> (res: Vec<usize>)
        ensures
            res@ == listed_indices(
                self.entries_manager.entries@,
                view_hidden,
                filter_text(self.field),
                self.entries_manager.entries@.len() as int,
            ),
    {
        let searching = match self.field.kind {
            Some(FieldKind::Search) => true,
            None => false,
        };
        let filter = if searching {
            text::trim(self.field.buffer.as_str())
        } else {
            let empty = String::new();
            assert(empty@ =~= Seq::<char>::empty());
            empty
        };
        let ghost f = filter_text(self.field);
        proof {
            if searching {
                assert(self.field.kind == Some(FieldKind::Search));
            } else {
                assert(self.field.kind is None);
            }
        }
        let ghost ents = self.entries_manager.entries@;
        let mut shown: Vec<usize> = Vec::new();
        let mut i: usize = 0;
        while i < self.entries_manager.entries.len()
            invariant
                ents == self.entries_manager.entries@,
                filter@ == f,
                i <= ents.len(),
                shown@ == listed_indices(ents, view_hidden, f, i as int),
            decreases ents.len() - i,
        {
            let entry = &self.entries_manager.entries[i];
            if entry.using && (view_hidden || !entry.is_hidden) && text::contains(
                entry.name.as_str(),
                filter.as_str(),
            ) {
                shown.push(i);
            }
            i = i + 1;
        }
        shown
    }

    /// The entry under the cursor.
    pub fn current_entry(&self) -> (res: &Entry)
        requires
            self.wf(),
            self.entries_manager.current_index < self.entries_manager.displaying@.len(),
        ensures
            *res == self.entries_manager.entries@[self.entries_manager.displaying@[self.entries_manager.current_index as int] as int],
    {
        let i = self.entries_manager.displaying[self.entries_manager.current_index];
        &self.entries_manager.entries[i]
    }

    /// What dropping the selection onto entry `to` moves: nothing where `to` is itself selected,
    /// else the selected paths and the path of `to`.
    pub fn transfer_plan(&self, to: usize) -> (res: Option<(Vec<String>, String)>)
        requires
            self.wf(),
            to < self.entries_manager.entries@.len(),
        ensures
            self.selected@.contains(to) ==> res is None,
            !self.selected@.contains(to) ==> (res matches Some(plan) && lists_selected_paths(
                plan.0@,
                self.selected@,
                self.entries_manager.entries@,
            ) && plan.1@ == self.entries_manager.entries@[to as int].path@),
    {
        if selection::contains(&self.selected, to) {
            return None;
        }
        let sources = self.selected_paths();
        let destination = self.entries_manager.entries[to].path.clone();
        Some((sources, destination))
    }

    /// Opens the search field, or, where a field is open, empties it and lists everything again;
    /// either way the field takes the focus.
    pub fn new_field(&mut self, kind: &FieldKind, view_hidden: bool, sorting: &Sorting)
        ensures
            final(self).field.focused,
            final(self).current_path == old(self).current_path,
            old(self).field.kind is Some ==> {
                &&& final(self).field.kind == old(self).field.kind
                &&& final(self).field.buffer@.len() == 0
                &&& refreshed(old(self).entries_manager.entries@, final(self).field, *final(self), view_hidden, *sorting)
            },
            old(self).field.kind is None ==> {
                &&& final(self).field.kind == Some(*kind)
                &&& final(self).field.buffer == old(self).field.buffer
                &&& final(self).entries_manager == old(self).entries_manager
                &&& final(self).selected == old(self).selected
            },
    {
        self.field.focused = true;
        if self.field.kind.is_some() {
            self.field.buffer = String::new();
            self.filter_and_sort(view_hidden, sorting);
            return ;
        }
        self.field.kind = Some(*kind);
    }

    /// Closes the search field and lists everything again.
    pub fn close_field(&mut self, view_hidden: bool, sorting: &Sorting)
        ensures
            final(self).field.kind is None,
            final(self).field.buffer@.len() == 0,
            !final(self).field.focused,
            final(self).current_path == old(self).current_path,
            refreshed(old(self).entries_manager.entries@, final(self).field, *final(self), view_hidden, *sorting),
    {
        self.field.reset();
        self.filter_and_sort(view_hidden, sorting);
    }

    /// Takes the focus away from the search field.
    pub fn unfocus_field(&mut self)
        ensures
            !final(self).field.focused,
            final(self).field.buffer == old(self).field.buffer,
            final(self).field.kind == old(self).field.kind,
            final(self).entries_manager == old(self).entries_manager,
            final(self).selected == old(self).selected,
            final(self).current_path == old(self).current_path,
    {
        self.field.unfocus();
    }

    /// Replaces what is typed in the search field.
    pub fn buffer_field(&mut self, buffer: String)
        ensures
            final(self).field.buffer == buffer,
            final(self).field.kind == old(self).field.kind,
            final(self).field.focused == old(self).field.focused,
            final(self).entries_manager == old(self).entries_manager,
            final(self).selected == old(self).selected,
            final(self).current_path == old(self).current_path,
    {
        self.field.buffer(buffer);
    }

    /// Applies what the field of kind `kind` holds: for the search field, lists again.
    pub fn logic_field(&mut self, kind: &FieldKind, view_hidden: bool, sorting: &Sorting)
        ensures
            final(self).field == old(self).field,
            final(self).current_path == old(self).current_path,
            refreshed(old(self).entries_manager.entries@, old(self).field, *final(self), view_hidden, *sorting),
    {
        match kind {
            FieldKind::Search => self.filter_and_sort(view_hidden, sorting),
        }
    }

    /// Shows a new listing of the folder: the search field is closed, the entries become the
    /// items found (in the order found), and the display is computed again.
    pub fn load_entries(&mut self, found: &Vec<TempEntry>, view_hidden: bool, sorting: &Sorting)
        ensures
            final(self).field.kind is None,
            final(self).field.buffer@.len() == 0,
            !final(self).field.focused,
            final(self).current_path == old(self).current_path,
            final(self).entries_manager.entries@.len() == found@.len(),
            final(self).entries_manager.scroll_signal == old(self).entries_manager.scroll_signal,
            forall|i: int|
                0 <= i < found@.len() ==> pushed_entry(
                    #[trigger] final(self).entries_manager.entries@[i],
                    Seq::empty(),
                    Seq::empty(),
                    found@[i],
                ),
            refreshed(final(self).entries_manager.entries@, final(self).field, *final(self), view_hidden, *sorting),
    {
        self.field.reset();
        let n0 = self.entries_manager.entries.len();
        let mut i: usize = 0;
        while i < n0
            invariant
                n0 == self.entries_manager.entries.len(),
                i <= n0,
                self.field.kind is None,
                self.field.buffer@.len() == 0,
                !self.field.focused,
                self.current_path == old(self).current_path,
                self.entries_manager.scroll_signal == old(self).entries_manager.scroll_signal,
                forall|k: int|
                    0 <= k < i ==> (#[trigger] self.entries_manager.entries@[k]).name@.len() == 0
                        && self.entries_manager.entries@[k].path@.len() == 0,
            decreases n0 - i,
        {
            let old_entry = &self.entries_manager.entries[i];
            let cleared = Entry {
                name: String::new(),
                file_type: "",
                file_icon: old_entry.file_icon,
                path: String::new(),
                using: false,
                is_hidden: old_entry.is_hidden,
                accessed: None,
                created: None,
                file_size: old_entry.file_size,
                folder_size: None,
            };
            self.entries_manager.entries.set(i, cleared);
            i = i + 1;
        }
        let mut index: usize = 0;
        while index < found.len()
            invariant
                n0 == old(self).entries_manager.entries@.len(),
                index <= found.len(),
                self.field.kind is None,
                self.field.buffer@.len() == 0,
                !self.field.focused,
                self.current_path == old(self).current_path,
                self.entries_manager.scroll_signal == old(self).entries_manager.scroll_signal,
                self.entries_manager.entries@.len() == if index < n0 { n0 as nat } else { index as nat },
                forall|k: int|
                    index <= k < n0 ==> (#[trigger] self.entries_manager.entries@[k]).name@.len() == 0
                        && self.entries_manager.entries@[k].path@.len() == 0,
                forall|k: int|
                    0 <= k < index ==> pushed_entry(
                        #[trigger] self.entries_manager.entries@[k],
                        Seq::empty(),
                        Seq::empty(),
                        found@[k],
                    ),
            decreases found.len() - index,
        {
            let ghost before = self.entries_manager.entries@;
            proof {
                if index < n0 {
                    assert(before[index as int].name@ =~= Seq::<char>::empty());
                    assert(before[index as int].path@ =~= Seq::<char>::empty());
                }
            }
            self.entries_manager.push(&found[index], index);
            index = index + 1;
        }
        self.entries_manager.entries.truncate(index);
        self.filter_and_sort(view_hidden, sorting);
    }

    /// Lists again with `view_hidden` (after the setting was flipped), keeps the cursor on the
    /// entry now shown first, and selects again the entries that were selected and are shown.
    pub fn toggle_view_hidden(&mut self, view_hidden: bool, sorting: &Sorting)
        requires
            old(self).wf(),
            listed_indices(
                old(self).entries_manager.entries@,
                view_hidden,
                filter_text(old(self).field),
                old(self).entries_manager.entries@.len() as int,
            ).len() > 0,
        ensures
            final(self).wf(),
            hidden_view_refreshed(*old(self), *final(self), view_hidden, *sorting),
    {
        let ghost ents = self.entries_manager.entries@;
        let ghost sel0 = self.selected@;
        let selected_paths = self.selected_paths();
        proof {
            let order = choose|order: Seq<usize>|
                #![trigger order.to_set()]
                order.to_set() == sel0 && order.no_duplicates() && order.len() == selected_paths@.len()
                    && forall|i: int|
                    0 <= i < order.len() ==> #[trigger] selected_paths@[i]@ == ents[order[i] as int].path@;
            let ps = selected_paths@.map_values(|p: String| p@);
            assert forall|q: Seq<char>| ps.to_set().contains(q) implies selected_path_set(sel0, ents).contains(q) by {
                let i = choose|i: int| 0 <= i < ps.len() && ps[i] == q;
                assert(order.to_set().contains(order[i]));
            }
            assert forall|q: Seq<char>| selected_path_set(sel0, ents).contains(q) implies ps.to_set().contains(q) by {
                let s = choose|s: usize| #[trigger] sel0.contains(s) && ents[s as int].path@ == q;
                assert(order.to_set().contains(s));
                let i = choose|i: int| 0 <= i < order.len() && order[i] == s;
                assert(ps[i] == q);
            }
            assert(ps.to_set() =~= selected_path_set(sel0, ents));
        }
        self.filter_and_sort(view_hidden, sorting);
        let ghost d = self.entries_manager.displaying@;
        proof {
            let listed = listed_indices(ents, view_hidden, filter_text(self.field), ents.len() as int);
            let m = choose|m: Seq<int>|
                #![trigger order::is_index_perm(m, listed.len() as int)]
                order::is_index_perm(m, listed.len() as int) && d.len() == listed.len() && (forall|i: int|
                    0 <= i < d.len() ==> #[trigger] d[i] == listed[m[i]]) && (forall|i: int, j: int|
                    #![trigger m[i], m[j]]
                    0 <= i < j < d.len() ==> sorting::shown_before(
                        ents[d[i] as int],
                        m[i],
                        ents[d[j] as int],
                        m[j],
                        sorting.sorting_by,
                        sorting.reversed,
                    ));
            assert(d.len() > 0);
        }
        let first = self.entries_manager.displaying[0];
        let current_path = self.entries_manager.entries[first].path.clone();
        proof {
            lemma_last_match_found(ents, d, current_path@, d.len() as int, 0);
        }
        self.highlight_path(current_path.as_str());
        self.restore_selection(&selected_paths);
    }
}

/// A notification to show: its title, text and kind.
#[derive(Clone, Debug)]
pub struct ToastNote {
    pub title: &'static str,
    pub content: String,
    pub kind: ToastKind,
}

/// What the explorer does in answer to a key binding.
#[derive(Clone, Copy, Debug, PartialEq, Eq, Structural)]
pub enum Command {
    Nothing,
    FinalizeChoice(usize),
    Navigate(NavigateDirection),
    NavigateForward,
    NavigateBackward,
    AddToClipboard(ClipboardMode),
    Paste,
    OpenOverlay(OverlayKind),
    ClearClipboard,
    ToggleHidden,
    Search,
    Refresh,
}

/// The answer to a key binding: an optional notification, then a command.
#[derive(Clone, Debug)]
pub struct ActionPlan {
    pub toast: Option<ToastNote>,
    pub command: Command,
}

/// The command for `action`: while a dialog is open only choices count (they answer it), while
/// the search field has the focus nothing counts, and copying, cutting or deleting needs a
/// selection.
pub open spec fn spec_command(action: KeybindAction, overlay_open: bool, field_focused: bool, selected_count: nat) -> Command {
    if overlay_open {
        match action {
            KeybindAction::Choice(c) => Command::FinalizeChoice(c),
            _ => Command::Nothing,
        }
    } else if field_focused {
        Command::Nothing
    } else {
        match action {
            KeybindAction::NavigateUp => Command::Navigate(NavigateDirection::Up),
            KeybindAction::NavigateDown => Command::Navigate(NavigateDirection::Down),
            KeybindAction::NavigateForward => Command::NavigateForward,
            KeybindAction::NavigateBackward => Command::NavigateBackward,
            KeybindAction::Copy => if selected_count == 0 {
                Command::Nothing
            } else {
                Command::AddToClipboard(ClipboardMode::Copy)
            },
            KeybindAction::Cut => if selected_count == 0 {
                Command::Nothing
            } else {
                Command::AddToClipboard(ClipboardMode::Cut)
            },
            KeybindAction::Paste => Command::Paste,
            KeybindAction::Delete => if selected_count == 0 {
                Command::Nothing
            } else {
                Command::OpenOverlay(OverlayKind::Delete)
            },
            KeybindAction::Rename => Command::OpenOverlay(OverlayKind::Rename),
            KeybindAction::ClearClipboard => Command::ClearClipboard,
            KeybindAction::ToggleHidden => Command::ToggleHidden,
            KeybindAction::CreateFile => Command::OpenOverlay(OverlayKind::CreateFile),
            KeybindAction::CreateFolder => Command::OpenOverlay(OverlayKind::CreateFolder),
            KeybindAction::Info => Command::OpenOverlay(OverlayKind::Metadata),
            KeybindAction::Search => Command::Search,
            KeybindAction::Refresh => Command::Refresh,
            _ => Command::Nothing,
        }
    }
}

/// The notification that accompanies `action`, as title, text and kind.
pub open spec fn spec_toast(action: KeybindAction, overlay_open: bool, field_focused: bool, selected_count: nat) -> Option<
    (&'static str, Seq<char>, ToastKind),
> {
    if overlay_open || field_focused {
        None
    } else {
        match action {
            KeybindAction::Copy => if selected_count == 0 {
                Some(("Clipboard", "nothing is selected to be copied!"@, ToastKind::Info))
            } else {
                Some(
                    (
                        "Clipboard",
                        "successfully added "@ + text::spec_decimal(selected_count)
                            + " items into clipboard!"@,
                        ToastKind::Success,
                    ),
                )
            },
            KeybindAction::Cut => if selected_count == 0 {
                Some(("Clipboard", "nothing is selected to be cut!"@, ToastKind::Info))
            } else {
                Some(
                    (
                        "Clipboard",
                        "successfully added "@ + text::spec_decimal(selected_count)
                            + " items into clipboard!"@,
                        ToastKind::Success,
                    ),
                )
            },
            KeybindAction::Delete => if selected_count == 0 {
                Some(("Delete", "nothing is selected to be deleted!"@, ToastKind::Info))
            } else {
                None
            },
            KeybindAction::ClearClipboard => Some(
                ("Success!", "successfully cleared clipboard!"@, ToastKind::Success),
            ),
            _ => None,
        }
    }
}

fn note(title: &'static str, content: String, kind: ToastKind) -> (res: Option<ToastNote>)
    ensures
        res matches Some(t) && t.title == title && t.content == content && t.kind == kind,
{
    Some(ToastNote { title, content, kind })
}

fn added_note(count: usize) -> (res: Option<ToastNote>)
    ensures
        res matches Some(t) && t.title == "Clipboard" && t.content@ == "successfully added "@
            + text::spec_decimal(count as nat) + " items into clipboard!"@ && t.kind
            == ToastKind::Success,
{
    let mut content = text::owned("successfully added ");
    content.append(text::decimal(count as u64).as_str());
    content.append(" items into clipboard!");
    note("Clipboard", content, ToastKind::Success)
}

/// Decides what a key binding does, given whether a dialog is open, whether the search field has
/// the focus, and how many entries are selected.
pub fn plan_action(action: &KeybindAction, overlay_open: bool, field_focused: bool, selected_count: usize) -> (res: ActionPlan)
    ensures
        res.command == spec_command(*action, overlay_open, field_focused, selected_count as nat),
        match spec_toast(*action, overlay_open, field_focused, selected_count as nat) {
            None => res.toast is None,
            Some(t) => res.toast matches Some(n) && n.title == t.0 && n.content@ == t.1 && n.kind
                == t.2,
        },
{
    if overlay_open {
        let command = match action {
            KeybindAction::Choice(c) => Command::FinalizeChoice(*c),
            _ => Command::Nothing,
        };
        return ActionPlan { toast: None, command };
    }
    if field_focused {
        return ActionPlan { toast: None, command: Command::Nothing };
    }
    match action {
        KeybindAction::NavigateUp => ActionPlan {
            toast: None,
            command: Command::Navigate(NavigateDirection::Up),
        },
        KeybindAction::NavigateDown => ActionPlan {
            toast: None,
            command: Command::Navigate(NavigateDirection::Down),
        },
        KeybindAction::NavigateForward => ActionPlan { toast: None, command: Command::NavigateForward },
        KeybindAction::NavigateBackward => ActionPlan {
            toast: None,
            command: Command::NavigateBackward,
        },
        KeybindAction::Copy => {
            if selected_count == 0 {
                ActionPlan {
                    toast: note(
                        "Clipboard",
                        text::owned("nothing is selected to be copied!"),
                        ToastKind::Info,
                    ),
                    command: Command::Nothing,
                }
            } else {
                ActionPlan {
                    toast: added_note(selected_count),
                    command: Command::AddToClipboard(ClipboardMode::Copy),
                }
            }
        },
        KeybindAction::Cut => {
            if selected_count == 0 {
                ActionPlan {
                    toast: note(
                        "Clipboard",
                        text::owned("nothing is selected to be cut!"),
                        ToastKind::Info,
                    ),
                    command: Command::Nothing,
                }
            } else {
                ActionPlan {
                    toast: added_note(selected_count),
                    command: Command::AddToClipboard(ClipboardMode::Cut),
                }
            }
        },
        KeybindAction::Paste => ActionPlan { toast: None, command: Command::Paste },
        KeybindAction::Delete => {
            if selected_count == 0 {
                ActionPlan {
                    toast: note(
                        "Delete",
                        text::owned("nothing is selected to be deleted!"),
                        ToastKind::Info,
                    ),
                    command: Command::Nothing,
                }
            } else {
                ActionPlan { toast: None, command: Command::OpenOverlay(OverlayKind::Delete) }
            }
        },
        KeybindAction::Rename => ActionPlan {
            toast: None,
            command: Command::OpenOverlay(OverlayKind::Rename),
        },
        KeybindAction::ClearClipboard => ActionPlan {
            toast: note(
                "Success!",
                text::owned("successfully cleared clipboard!"),
                ToastKind::Success,
            ),
            command: Command::ClearClipboard,
        },
        KeybindAction::ToggleHidden => ActionPlan { toast: None, command: Command::ToggleHidden },
        KeybindAction::CreateFile => ActionPlan {
            toast: None,
            command: Command::OpenOverlay(OverlayKind::CreateFile),
        },
        KeybindAction::CreateFolder => ActionPlan {
            toast: None,
            command: Command::OpenOverlay(OverlayKind::CreateFolder),
        },
        KeybindAction::Info => ActionPlan {
            toast: None,
            command: Command::OpenOverlay(OverlayKind::Metadata),
        },
        KeybindAction::Search => ActionPlan { toast: None, command: Command::Search },
        KeybindAction::Refresh => ActionPlan { toast: None, command: Command::Refresh },
        _ => ActionPlan { toast: None, command: Command::Nothing },
    }
}

/// What answering a dialog with a choice leads to.
#[derive(Clone, Copy, Debug, PartialEq, Eq, Structural)]
pub enum ChoiceOutcome {
    /// Tell the waiting paste how to handle a name that is taken.
    Respond(PasteKind),
    /// Delete the selected entries.
    Delete,
    Nothing,
}

/// The outcome of choice `choice` in a dialog of kind `kind`: in the paste dialog 0 replaces and
/// 1 duplicates; in the delete dialog 0 (yes) deletes and any other choice (no) does not.
pub open spec fn spec_choice_outcome(kind: OverlayKind, choice: usize) -> ChoiceOutcome {
    match kind {
        OverlayKind::Paste => if choice == 0 {
            ChoiceOutcome::Respond(PasteKind::Replace)
        } else if choice == 1 {
            ChoiceOutcome::Respond(PasteKind::Duplicate)
        } else {
            ChoiceOutcome::Nothing
        },
        OverlayKind::Delete => if choice == 0 {
            ChoiceOutcome::Delete
        } else {
            ChoiceOutcome::Nothing
        },
        _ => ChoiceOutcome::Nothing,
    }
}

/// Whether `s` holds one of the characters that names may not hold: NUL, `"`, `/` or `*`.
pub open spec fn spec_has_banned(s: Seq<char>) -> bool {
    ||| text::spec_contains(s, "\0"@)
    ||| text::spec_contains(s, "\""@)
    ||| text::spec_contains(s, "/"@)
    ||| text::spec_contains(s, "*"@)
}

/// Whether `s` holds a character that names may not hold.
pub fn has_banned_characters(s: &str) -> (res: bool)
    ensures
        res == spec_has_banned(s@),
{
    text::contains(s, "\0") || text::contains(s, "\"") || text::contains(s, "/") || text::contains(
        s,
        "*",
    )
}

impl Overlay {
    /// Opens a dialog of kind `kind`. The rename dialog is about `path` and starts with its file
    /// name typed in; the paste dialog records `path` where one is given.
    pub fn open(&mut self, kind: OverlayKind, path: Option<&str>)
        requires
            kind == OverlayKind::Rename ==> path is Some && paths::spec_file_name(path->0@) is Some,
        ensures
            final(self).kind == Some(kind),
            final(self).error == old(self).error,
            final(self).entry == old(self).entry,
            kind == OverlayKind::Rename ==> {
                &&& final(self).path matches Some(p) && p@ == path->0@
                &&& final(self).buffer@ == paths::spec_file_name(path->0@)->0
            },
            kind == OverlayKind::Paste ==> {
                &&& final(self).buffer == old(self).buffer
                &&& match path {
                    Some(p) => final(self).path matches Some(q) && q@ == p@,
                    None => final(self).path == old(self).path,
                }
            },
            kind != OverlayKind::Rename && kind != OverlayKind::Paste ==> final(self).buffer == old(
                self,
            ).buffer && final(self).path == old(self).path,
    {
        self.kind = Some(kind);
        match kind {
            OverlayKind::Rename => {
                match path {
                    Some(p) => {
                        self.path = Some(text::owned(p));
                        match paths::file_name(p) {
                            Some(name) => {
                                self.buffer = name;
                            },
                            None => {},
                        }
                    },
                    None => {},
                }
            },
            OverlayKind::Paste => {
                match path {
                    Some(p) => {
                        self.path = Some(text::owned(p));
                    },
                    None => {},
                }
            },
            _ => {},
        }
    }

    /// Answers the open dialog with `choice` and closes it.
    pub fn finalize_choice(&mut self, choice: usize) -> (res: ChoiceOutcome)
        requires
            old(self).kind is Some,
        ensures
            res == spec_choice_outcome(old(self).kind->0, choice),
            final(self).kind is None,
            final(self).error@.len() == 0,
            final(self).buffer@.len() == 0,
            final(self).path == old(self).path,
            final(self).entry == old(self).entry,
    {
        let outcome = match self.kind {
            Some(OverlayKind::Paste) => {
                if choice == 0 {
                    ChoiceOutcome::Respond(PasteKind::Replace)
                } else if choice == 1 {
                    ChoiceOutcome::Respond(PasteKind::Duplicate)
                } else {
                    ChoiceOutcome::Nothing
                }
            },
            Some(OverlayKind::Delete) => {
                if choice == 0 {
                    ChoiceOutcome::Delete
                } else {
                    ChoiceOutcome::Nothing
                }
            },
            _ => ChoiceOutcome::Nothing,
        };
        self.reset();
        outcome
    }

    /// Checks the name typed into the rename dialog: outside that dialog nothing is to be
    /// renamed; a name holding a banned character is refused with an error message.
    pub fn check_rename(&mut self) -> (res: bool)
        requires
            old(self).kind is Some,
        ensures
            res == (old(self).kind == Some(OverlayKind::Rename) && !spec_has_banned(
                text::spec_trim(old(self).buffer@),
            )),
            (old(self).kind == Some(OverlayKind::Rename) && spec_has_banned(
                text::spec_trim(old(self).buffer@),
            )) ==> final(self).error@ == "Containing invalid characters!"@,
            !(old(self).kind == Some(OverlayKind::Rename) && spec_has_banned(
                text::spec_trim(old(self).buffer@),
            )) ==> final(self).error == old(self).error,
            final(self).kind == old(self).kind,
            final(self).buffer == old(self).buffer,
            final(self).path == old(self).path,
            final(self).entry == old(self).entry,
    {
        match self.kind {
            Some(OverlayKind::Rename) => {},
            _ => {
                return false;
            },
        }
        let trimmed = text::trim(self.buffer.as_str());
        if has_banned_characters(trimmed.as_str()) {
            self.error = text::owned("Containing invalid characters!");
            return false;
        }
        true
    }

    /// The path typed into a create dialog: trimmed, without one leading `/`.
    pub fn create_input(&self) -> (res: String)
        ensures
            res@ == ({
                let t = text::spec_trim(self.buffer@);
                if t.len() > 0 && t[0] == '/' {
                    t.drop_first()
                } else {
                    t
                }
            }),
    {
        let t = text::trim(self.buffer.as_str());
        let v = text::chars_of(t.as_str());
        if v.len() > 0 && v[0] == '/' {
            let rest = text::suffix_chars(&v, 1);
            assert(rest@ =~= t@.drop_first());
            text::string_from_chars(&rest)
        } else {
            t
        }
    }
}

/// What the metadata window of an entry still has to read from the disk: the dates unless both
/// are known, the sizes unless the file size is known.
pub fn metadata_needs(selected: &Entry) -> (res: (bool, bool))
    ensures
        res.0 == !(selected.accessed is Some && selected.created is Some),
        res.1 == (selected.file_size is None),
{
    let times = match (selected.accessed, selected.created) {
        (Some(_), Some(_)) => false,
        _ => true,
    };
    (times, selected.file_size.is_none())
}

/// The entry the metadata window shows for `selected`: its name, type and path; its dates where
/// both are known, else those read (`times`); its sizes where the file size is known, else those
/// read (`sizes`).
pub fn metadata_entry(
    selected: &Entry,
    times: (Option<i64>, Option<i64>),
    sizes: (Option<u64>, Option<usize>),
) -> (res: Entry)
    ensures
        res.name@ == selected.name@,
        res.file_type == selected.file_type,
        res.path@ == selected.path@,
        res.file_icon == IconKind::QuestionMark,
        !res.using,
        !res.is_hidden,
        (res.accessed, res.created) == if selected.accessed is Some && selected.created is Some {
            (selected.accessed, selected.created)
        } else {
            times
        },
        (res.file_size, res.folder_size) == if selected.file_size is Some {
            (selected.file_size, selected.folder_size)
        } else {
            sizes
        },
{
    let (accessed, created) = match (selected.accessed, selected.created) {
        (Some(t), Some(p)) => (Some(t), Some(p)),
        _ => times,
    };
    let (file_size, folder_size) = match selected.file_size {
        Some(t) => (Some(t), selected.folder_size),
        None => sizes,
    };
    Entry {
        name: text::owned(selected.name.as_str()),
        file_type: selected.file_type,
        file_icon: IconKind::QuestionMark,
        path: text::owned(selected.path.as_str()),
        using: false,
        is_hidden: false,
        accessed,
        created,
        file_size,
        folder_size,
    }
}

/// Shows the hidden entries where they were hidden, or hides them where they were shown, and
/// refreshes `panel` for the new setting (see `hidden_view_refreshed`).
pub fn toggle_hidden_view(view: &mut ViewConf, panel: &mut Panel, sorting: &Sorting)
    requires
        old(panel).wf(),
        listed_indices(
            old(panel).entries_manager.entries@,
            !old(view).view_hidden_files,
            filter_text(old(panel).field),
            old(panel).entries_manager.entries@.len() as int,
        ).len() > 0,
    ensures
        final(view).view_hidden_files == !old(view).view_hidden_files,
        final(view).explorer == old(view).explorer,
        final(view).metadata == old(view).metadata,
        final(view).dark_mode == old(view).dark_mode,
        final(view).format_date == old(view).format_date,
        final(view).info_toast_time == old(view).info_toast_time,
        final(view).danger_toast_time == old(view).danger_toast_time,
        final(view).success_toast_time == old(view).success_toast_time,
        final(panel).wf(),
        hidden_view_refreshed(*old(panel), *final(panel), final(view).view_hidden_files, *sorting),
{
    view.view_hidden_files = !view.view_hidden_files;
    panel.toggle_view_hidden(view.view_hidden_files, sorting);
}

} // verus!
