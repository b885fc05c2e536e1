//! Pasting, moving, copying and creating files: every decision made here, with what the disk
//! says handed in by the caller, who also does the moving.

use crate::file::icons::IconKind;
use crate::file::info;
use crate::file::PasteKind;
use crate::paths;
use crate::text;
use crate::ui;
use vstd::prelude::*;

verus! {

/// The file name of `path` without its extension (a folder's name is kept whole).
pub fn file_name(path: &str, is_dir: bool) -> (res: String)
    requires
        paths::spec_file_name(path@) is Some,
    ensures
        res@ == info::spec_name_without_extension(path@, is_dir),
{
    info::file_name_without_extension(path, is_dir)
}

/// The description and icon of a file (see `info::file_type`).
pub fn file_type(is_dir: bool, extension: &str, is_textfile: bool, is_symlink: bool) -> (res: (
    &'static str,
    IconKind,
))
    ensures
        res == info::spec_file_type(is_dir, extension@, is_textfile, is_symlink),
{
    info::file_type(is_dir, extension, is_textfile, is_symlink)
}

/// Whether the file name of `path` starts with a dot.
pub fn is_hidden(path: &str) -> (res: bool)
    ensures
        res == info::spec_is_hidden(path@),
{
    info::is_hidden(path)
}

/// The access and creation times asked for (see `info::accessed_and_created`).
pub fn accessed_and_created(times: Option<(u64, u64)>, fetch_accessed: &bool, fetch_created: &bool) -> (res: (
    Option<i64>,
    Option<i64>,
))
    requires
        times matches Some(t) ==> (*fetch_accessed ==> t.0 <= i64::MAX) && (*fetch_created ==> t.1
            <= i64::MAX),
    ensures
        res == match times {
            Some(t) => (
                if *fetch_accessed {
                    Some(t.0 as i64)
                } else {
                    None
                },
                if *fetch_created {
                    Some(t.1 as i64)
                } else {
                    None
                },
            ),
            None => (None, None),
        },
{
    info::accessed_and_created(times, fetch_accessed, fetch_created)
}

/// A size in bytes as shown.
pub fn bytes_to_string(size: u64) -> (res: String)
    ensures
        res@ == ui::spec_bytes_to_string(size),
{
    ui::bytes_to_string(size)
}

/// `base` with each of `parts` pushed onto it in turn.
pub open spec fn push_all(base: Seq<char>, parts: Seq<Seq<char>>) -> Seq<char>
    decreases parts.len(),
{
    if parts.len() == 0 {
        base
    } else {
        paths::spec_path_push(push_all(base, parts.drop_last()), parts.last())
    }
}

/// Pushes each of `parts` onto `base`.
pub fn push_parts(base: &str, parts: &Vec<Vec<char>>) -> (res: String)
    ensures
        res@ == push_all(base@, parts@.map_values(|p: Vec<char>| p@)),
{
    let ghost views = parts@.map_values(|p: Vec<char>| p@);
    let mut out = text::owned(base);
    let mut i: usize = 0;
    while i < parts.len()
        invariant
            i <= parts.len(),
            views == parts@.map_values(|p: Vec<char>| p@),
            out@ == push_all(base@, views.subrange(0, i as int)),
        decreases parts.len() - i,
    {
        let part = text::string_from_chars(&parts[i]);
        out = paths::path_push(out.as_str(), part.as_str());
        assert(views.subrange(0, i + 1).drop_last() =~= views.subrange(0, i as int));
        i = i + 1;
    }
    assert(views.subrange(0, parts.len() as int) =~= views);
    out
}

/// Characters that no component of a new path may hold; `*` among them where `star`.
pub open spec fn spec_banned(c: char, star: bool) -> bool {
    c == '\0' || c == '"' || c == '/' || (star && c == '*')
}

/// Whether some character of `s` is banned.
pub open spec fn holds_banned(s: Seq<char>, star: bool) -> bool {
    exists|j: int| 0 <= j < s.len() && spec_banned(#[trigger] s[j], star)
}

/// A typed path names nothing: it has no component at all.
pub open spec fn spec_blank(typed: Seq<char>) -> bool {
    let c = paths::spec_components(typed);
    !c.0 && !c.1 && c.2.len() == 0
}

/// A typed path holds a component with a banned character; the root, written `/`, is one.
pub open spec fn spec_invalid(typed: Seq<char>, star: bool) -> bool {
    let c = paths::spec_components(typed);
    c.0 || exists|i: int| 0 <= i < c.2.len() && holds_banned(#[trigger] c.2[i], star)
}

/// Where a typed path leads from `current`: each of its components pushed in turn.
pub open spec fn spec_created_path(current: Seq<char>, typed: Seq<char>) -> Seq<char> {
    let c = paths::spec_components(typed);
    push_all(
        if c.1 {
            paths::spec_path_push(current, "."@)
        } else {
            current
        },
        c.2,
    )
}

/// What a path typed for a new file or folder comes to.
#[derive(Debug, PartialEq, Eq)]
pub enum NewPath {
    /// Nothing was typed that names a path.
    Blank,
    /// A component holds a banned character.
    Invalid,
    /// The path to create.
    Valid(String),
}

/// Whether a character of `part` is banned.
fn part_has_banned(part: &Vec<char>, star: bool) -> (res: bool)
    ensures
        res == holds_banned(part@, star),
{
    let mut j: usize = 0;
    while j < part.len()
        invariant
            j <= part.len(),
            forall|k: int| 0 <= k < j ==> !spec_banned(#[trigger] part@[k], star),
        decreases part.len() - j,
    {
        let c = part[j];
        if c == '\0' || c == '"' || c == '/' || (star && c == '*') {
            assert(spec_banned(part@[j as int], star));
            return true;
        }
        j = j + 1;
    }
    false
}

/// Reads `typed`, a path relative to `current`, as the path of a new file or folder: blank where
/// it has no component, invalid where a component holds a banned character (`*` only where
/// `star`), else `current` with each component pushed in turn.
pub fn new_path_target(current: &str, typed: &str, star: bool) -> (res: NewPath)
    ensures
        spec_blank(typed@) ==> res == NewPath::Blank,
        !spec_blank(typed@) && spec_invalid(typed@, star) ==> res == NewPath::Invalid,
        !spec_blank(typed@) && !spec_invalid(typed@, star) ==> (res matches NewPath::Valid(p) && p@
            == spec_created_path(current@, typed@)),
{
    let (root, cur) = paths::root_and_cur(typed);
    let parts = paths::normal_parts_of(typed);
    let ghost views = parts@.map_values(|p: Vec<char>| p@);
    assert(views == paths::spec_components(typed@).2);
    if !root && !cur && parts.len() == 0 {
        return NewPath::Blank;
    }
    if root {
        return NewPath::Invalid;
    }
    let mut i: usize = 0;
    while i < parts.len()
        invariant
            i <= parts.len(),
            views == parts@.map_values(|p: Vec<char>| p@),
            views == paths::spec_components(typed@).2,
            !spec_blank(typed@),
            forall|k: int| 0 <= k < i ==> !holds_banned(#[trigger] views[k], star),
        decreases parts.len() - i,
    {
        if part_has_banned(&parts[i], star) {
            assert(holds_banned(views[i as int], star));
            return NewPath::Invalid;
        }
        i = i + 1;
    }
    let base = if cur {
        paths::path_push(current, ".")
    } else {
        text::owned(current)
    };
    NewPath::Valid(push_parts(base.as_str(), &parts))
}

/// The path a new file or folder is made at, `typed` being read from `current`; refused with
/// a message where nothing was typed or a component holds `\0`, `"`, `/` or `*`.
pub fn create_target(current: &str, typed: &str) -> (res: Result<String, String>)
    ensures
        spec_blank(typed@) ==> (res matches Err(e) && e@ == "maybe dont leave the input box blank?"@),
        !spec_blank(typed@) && spec_invalid(typed@, true) ==> (res matches Err(e) && e@
            == "invalid characters"@),
        !spec_blank(typed@) && !spec_invalid(typed@, true) ==> (res matches Ok(p) && p@
            == spec_created_path(current@, typed@)),
{
    proof {
        reveal_strlit("maybe dont leave the input box blank?");
        reveal_strlit("invalid characters");
    }
    match new_path_target(current, typed, true) {
        NewPath::Blank => Err(text::owned("maybe dont leave the input box blank?")),
        NewPath::Invalid => Err(text::owned("invalid characters")),
        NewPath::Valid(p) => Ok(p),
    }
}

/// One step of pasting an item into a folder.
#[derive(Clone, Copy, Debug, PartialEq, Eq, Structural)]
pub enum PasteStep {
    /// Nothing of the item's name is at the target: move or copy the item there.
    Transfer,
    /// Move or copy the item under the first free numbered name in the folder.
    Duplicate,
    /// The item already is the target: nothing to do.
    Keep,
    /// Remove what is at the target, then move or copy the item there.
    Replace,
    /// Go one folder deeper, under the item's name, and take the next step there.
    Descend,
}

/// The folder an item is pasted into, `dest` with the folders descended into pushed onto it,
/// and the target there: that folder with the item's name pushed onto it.
pub fn paste_location(dest: &str, descended: &Vec<Vec<char>>, name: &str) -> (res: (String, String))
    ensures
        res.0@ == push_all(dest@, descended@.map_values(|p: Vec<char>| p@)),
        res.1@ == paths::spec_path_push(res.0@, name@),
{
    let folder = push_parts(dest, descended);
    let target = paths::path_push(folder.as_str(), name);
    (folder, target)
}

/// The step of a paste of `item` onto `target`, from whether the target exists and whether the
/// folder it is in is a file: a free target takes the item; else a duplicate is made, or the
/// target is replaced, unless it is the item itself.
pub open spec fn spec_paste_step(
    kind: PasteKind,
    item: Seq<char>,
    target: Seq<char>,
    target_exists: bool,
    folder_is_file: bool,
) -> PasteStep {
    if !target_exists {
        PasteStep::Transfer
    } else {
        match kind {
            PasteKind::Duplicate => PasteStep::Duplicate,
            PasteKind::Replace => if paths::spec_same_path(item, target) {
                PasteStep::Keep
            } else if !folder_is_file {
                PasteStep::Replace
            } else {
                PasteStep::Descend
            },
        }
    }
}

/// Decides the step of a paste of `item` onto `target`.
pub fn paste_step(
    kind: &PasteKind,
    item: &str,
    target: &str,
    target_exists: bool,
    folder_is_file: bool,
) -> (res: PasteStep)
    ensures
        res == spec_paste_step(*kind, item@, target@, target_exists, folder_is_file),
{
    if !target_exists {
        return PasteStep::Transfer;
    }
    match kind {
        PasteKind::Duplicate => PasteStep::Duplicate,
        PasteKind::Replace => {
            if paths::same_path(item, target) {
                PasteStep::Keep
            } else if !folder_is_file {
                PasteStep::Replace
            } else {
                PasteStep::Descend
            }
        },
    }
}

/// An extension as appended to a name: nothing, or a dot and the extension.
pub open spec fn spec_dotted(extension: Seq<char>) -> Seq<char> {
    if extension.len() == 0 {
        Seq::empty()
    } else {
        "."@ + extension
    }
}

/// Writes an extension as appended to a name.
pub fn dotted_extension(extension: &str) -> (res: String)
    ensures
        res@ == spec_dotted(extension@),
{
    if extension.unicode_len() == 0 {
        String::new()
    } else {
        text::concat(".", extension)
    }
}

/// The `k`-th name tried for a duplicate: the name itself first, then `name (k)`, the extension
/// after either.
pub open spec fn spec_numbered_name(stem: Seq<char>, extension: Seq<char>, k: nat) -> Seq<char> {
    if k == 0 {
        stem + extension
    } else {
        stem + " ("@ + text::spec_decimal(k) + ")"@ + extension
    }
}

/// Writes the `k`-th name tried for a duplicate.
pub fn numbered_name(stem: &str, extension: &str, k: u64) -> (res: String)
    ensures
        res@ == spec_numbered_name(stem@, extension@, k as nat),
{
    if k == 0 {
        return text::concat(stem, extension);
    }
    let mut s = text::concat(stem, " (");
    s.append(text::decimal(k).as_str());
    s.append(")");
    s.append(extension);
    s
}

/// The `k`-th path tried for a duplicate in `folder`.
pub fn increment_suffix(stem: &str, extension: &str, folder: &str, k: u64) -> (res: String)
    ensures
        res@ == paths::spec_path_push(folder@, spec_numbered_name(stem@, extension@, k as nat)),
{
    let name = numbered_name(stem, extension, k);
    paths::path_push(folder, name.as_str())
}

/// Whether `p` lies directly in `folder`.
pub open spec fn spec_in_folder(p: Seq<char>, folder: Seq<char>) -> bool {
    paths::spec_parent_components(p) == paths::spec_components(folder)
}

/// Whether `p` lies directly in `folder`.
pub fn in_folder(p: &str, folder: &str) -> (res: bool)
    ensures
        res == spec_in_folder(p@, folder@),
{
    let (rp, cp) = paths::root_and_cur(p);
    let (rf, cf) = paths::root_and_cur(folder);
    let pp = paths::normal_parts_of(p);
    let pf = paths::normal_parts_of(folder);
    let ghost vp = pp@.map_values(|x: Vec<char>| x@);
    let ghost vf = pf@.map_values(|x: Vec<char>| x@);
    if pp.len() > 0 {
        let mut parent: Vec<Vec<char>> = Vec::new();
        let mut i: usize = 0;
        while i + 1 < pp.len()
            invariant
                pp.len() > 0,
                i < pp.len(),
                vp == pp@.map_values(|x: Vec<char>| x@),
                parent@.map_values(|x: Vec<char>| x@) == vp.subrange(0, i as int),
            decreases pp.len() - i,
        {
            let ghost before = parent@.map_values(|x: Vec<char>| x@);
            parent.push(text::prefix_chars(&pp[i], pp[i].len()));
            assert(pp@[i as int]@.subrange(0, pp@[i as int]@.len() as int) =~= pp@[i as int]@);
            assert(parent@.map_values(|x: Vec<char>| x@) =~= before.push(vp[i as int]));
            assert(vp.subrange(0, i + 1) =~= vp.subrange(0, i as int).push(vp[i as int]));
            i = i + 1;
        }
        assert(vp.subrange(0, i as int) =~= vp.drop_last());
        rp == rf && cp == cf && paths::parts_eq(&parent, &pf)
    } else {
        assert(vp.len() == 0);
        assert(vp =~= Seq::<Seq<char>>::empty());
        if pf.len() == 0 {
            assert(vf =~= Seq::<Seq<char>>::empty());
        } else {
            assert(vf.len() > 0);
        }
        rp == rf && !cf && pf.len() == 0
    }
}

/// A path's final component is a plain name: not empty, not `.`, and without a `/`.
pub proof fn lemma_file_name_normal(item: Seq<char>, name: Seq<char>)
    requires
        paths::spec_file_name(item) == Some(name),
    ensures
        paths::is_normal_part(name),
{
    paths::lemma_last_normal(text::spec_split(item, '/'));
    paths::lemma_components_normal(item);
    let parts = paths::spec_components(item).2;
    assert(parts.len() > 0);
    assert(parts[parts.len() - 1] == name);
}

/// A plain name pushed onto `folder` lies directly in `folder`.
pub proof fn lemma_push_in_folder(folder: Seq<char>, name: Seq<char>)
    requires
        paths::is_normal_part(name),
    ensures
        spec_in_folder(paths::spec_path_push(folder, name), folder),
{
    paths::lemma_push_components(folder, name);
    let parts = paths::spec_components(folder).2;
    assert(parts.push(name).drop_last() =~= parts);
}

/// Where an item pasted into `dest` goes first: `dest` with the item's name pushed onto it.
pub open spec fn spec_first_target(item: Seq<char>, dest: Seq<char>) -> Seq<char> {
    paths::spec_path_push(dest, paths::spec_file_name(item)->0)
}

/// Every one of `items` has a final component.
pub open spec fn all_named(items: Seq<String>) -> bool {
    forall|i: int| 0 <= i < items.len() ==> paths::spec_file_name(#[trigger] items[i]@) is Some
}

fn first_target(item: &str, dest: &str) -> (res: String)
    requires
        paths::spec_file_name(item@) is Some,
    ensures
        res@ == spec_first_target(item@, dest@),
        spec_in_folder(res@, dest@),
{
    let name = paths::file_name(item);
    match name {
        Some(n) => {
            proof {
                lemma_file_name_normal(item@, n@);
                lemma_push_in_folder(dest@, n@);
            }
            paths::path_push(dest, n.as_str())
        },
        None => {
            proof {
                assert(false);
            }
            String::new()
        },
    }
}

/// Where a move into `dest` sends each of `old_files`: nothing where `dest` is no folder; else
/// each item that does not already lie directly in `dest` goes to `dest` under its own name,
/// and each that does is left (`None`).
pub fn move_dir(old_files: &Vec<String>, dest: &str, dest_is_dir: bool) -> (res: Vec<Option<String>>)
    requires
        all_named(old_files@),
    ensures
        !dest_is_dir ==> res@.len() == 0,
        dest_is_dir ==> res@.len() == old_files@.len(),
        dest_is_dir ==> forall|i: int|
            0 <= i < res@.len() ==> match #[trigger] res@[i] {
                Some(t) => !spec_in_folder(old_files@[i]@, dest@) && t@ == spec_first_target(
                    old_files@[i]@,
                    dest@,
                ) && spec_in_folder(t@, dest@),
                None => spec_in_folder(old_files@[i]@, dest@),
            },
{
    let mut res: Vec<Option<String>> = Vec::new();
    if !dest_is_dir {
        return res;
    }
    let mut i: usize = 0;
    while i < old_files.len()
        invariant
            i <= old_files.len(),
            res@.len() == i,
            all_named(old_files@),
            forall|k: int|
                0 <= k < i ==> match #[trigger] res@[k] {
                    Some(t) => !spec_in_folder(old_files@[k]@, dest@) && t@ == spec_first_target(
                        old_files@[k]@,
                        dest@,
                    ) && spec_in_folder(t@, dest@),
                    None => spec_in_folder(old_files@[k]@, dest@),
                },
        decreases old_files.len() - i,
    {
        let item = old_files[i].as_str();
        assert(paths::spec_file_name(old_files@[i as int]@) is Some);
        if in_folder(item, dest) {
            res.push(None);
        } else {
            res.push(Some(first_target(item, dest)));
        }
        i = i + 1;
    }
    res
}

/// Where a copy into `dest` sends each of `old_files`: nothing where `dest` is no folder; else
/// each item goes to `dest` under its own name.
pub fn copy_dir(old_files: &Vec<String>, dest: &str, dest_is_dir: bool) -> (res: Vec<Option<String>>)
    requires
        all_named(old_files@),
    ensures
        !dest_is_dir ==> res@.len() == 0,
        dest_is_dir ==> res@.len() == old_files@.len(),
        dest_is_dir ==> forall|i: int|
            0 <= i < res@.len() ==> (#[trigger] res@[i] matches Some(t) && t@ == spec_first_target(
                old_files@[i]@,
                dest@,
            ) && spec_in_folder(t@, dest@)),
{
    let mut res: Vec<Option<String>> = Vec::new();
    if !dest_is_dir {
        return res;
    }
    let mut i: usize = 0;
    while i < old_files.len()
        invariant
            i <= old_files.len(),
            res@.len() == i,
            all_named(old_files@),
            forall|k: int|
                0 <= k < i ==> (#[trigger] res@[k] matches Some(t) && t@ == spec_first_target(
                    old_files@[k]@,
                    dest@,
                ) && spec_in_folder(t@, dest@)),
        decreases old_files.len() - i,
    {
        assert(paths::spec_file_name(old_files@[i as int]@) is Some);
        res.push(Some(first_target(old_files[i].as_str(), dest)));
        i = i + 1;
    }
    res
}

/// Whether `taken[k]` is the first `false` of `taken`: the least count whose name is free.
pub open spec fn is_least_free(taken: Seq<bool>, k: int) -> bool {
    &&& 0 <= k < taken.len()
    &&& !taken[k]
    &&& forall|j: int| 0 <= j < k ==> #[trigger] taken[j]
}

/// The least count whose name is free, from whether each name tried so far is taken; `None`
/// where all of them are.
pub fn least_free(taken: &Vec<bool>) -> (res: Option<u64>)
    requires
        taken@.len() <= u64::MAX,
    ensures
        match res {
            Some(k) => is_least_free(taken@, k as int),
            None => forall|j: int| 0 <= j < taken@.len() ==> #[trigger] taken@[j],
        },
{
    let mut k: usize = 0;
    while k < taken.len()
        invariant
            k <= taken@.len(),
            taken@.len() <= u64::MAX,
            forall|j: int| 0 <= j < k ==> #[trigger] taken@[j],
        decreases taken.len() - k,
    {
        if !taken[k] {
            return Some(k as u64);
        }
        k = k + 1;
    }
    None
}

/// The path a duplicate of an item named `stem` + `extension` takes in `folder`: the first of
/// the names tried (see `spec_numbered_name`) that `taken` does not mark as taken, `None` where
/// all the names tried are taken.
pub fn duplicate_target(stem: &str, extension: &str, folder: &str, taken: &Vec<bool>) -> (res: Option<String>)
    requires
        taken@.len() <= u64::MAX,
    ensures
        res is None <==> forall|j: int| 0 <= j < taken@.len() ==> #[trigger] taken@[j],
        forall|k: int|
            #![trigger is_least_free(taken@, k)]
            is_least_free(taken@, k) ==> (res matches Some(p) && p@ == paths::spec_path_push(
                folder@,
                spec_numbered_name(stem@, extension@, k as nat),
            ) && (paths::is_normal_part(spec_numbered_name(stem@, extension@, k as nat))
                ==> spec_in_folder(p@, folder@))),
{
    match least_free(taken) {
        Some(k) => {
            proof {
                let name = spec_numbered_name(stem@, extension@, k as nat);
                if paths::is_normal_part(name) {
                    lemma_push_in_folder(folder@, name);
                }
                assert forall|j: int| is_least_free(taken@, j) implies j == k as int by {
                    if j < k as int {
                        assert(taken@[j]);
                    } else if k < j {
                        assert(taken@[k as int]);
                    }
                }
            }
            Some(increment_suffix(stem, extension, folder, k))
        },
        None => None,
    }
}

} // verus!
