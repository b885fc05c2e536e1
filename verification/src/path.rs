//! File operations after the first layout of the explorer: merging or duplicating on a paste,
//! and file types named by the `file_type` crate.

use crate::file::info;
use crate::file_system::{self, NewPath, PasteStep};
use crate::paths;
use crate::text;
use crate::ui;
use file_type::FileType;
use vstd::prelude::*;

verus! {

/// What to do with an item whose name is already taken at the destination.
#[derive(Clone, Copy, Debug, PartialEq, Eq, Structural)]
pub enum OperationChoice {
    Merge,
    Duplicate,
}

/// The file name of `path` without its extension (a folder's name is kept whole).
pub fn get_filename(path: &str, is_dir: bool) -> (res: String)
    requires
        paths::spec_file_name(path@) is Some,
    ensures
        res@ == info::spec_name_without_extension(path@, is_dir),
{
    info::file_name_without_extension(path, is_dir)
}

/// The name `file_type` gives the first file type it knows for `extension`, if it knows one.
pub uninterp spec fn spec_file_type_name(extension: Seq<char>) -> Option<Seq<char>>;

/// Calls `FileType::from_extension` and takes the name of the first type it returns. That
/// function looks the extension up in a fixed table built into the crate, so the result depends
/// on the extension alone.
#[verifier::external_body]
fn file_type_name(extension: &str) -> (res: Option<String>)
    ensures
        match res {
            Some(n) => spec_file_type_name(extension@) == Some(n@),
            None => spec_file_type_name(extension@) is None,
        },
{
    FileType::from_extension(extension).first().map(|t| t.name().to_string())
}

/// The type of a file as shown, from the name of its type where one is known: a folder; else
/// that name, or `unknown`; a symbolic link as `Symlink -> ` and that.
pub open spec fn spec_file_type_label(is_dir: bool, kind_name: Option<Seq<char>>, is_symlink: bool) -> Seq<char> {
    if is_dir {
        "Folder"@
    } else {
        let name = match kind_name {
            Some(n) => n,
            None => "unknown"@,
        };
        if is_symlink {
            "Symlink -> "@ + name
        } else {
            name
        }
    }
}

/// Writes the type of a file as shown (see `spec_file_type_label`).
pub fn file_type_label(is_dir: bool, kind_name: Option<&str>, is_symlink: bool) -> (res: String)
    ensures
        res@ == spec_file_type_label(
            is_dir,
            match kind_name {
                Some(n) => Some(n@),
                None => None,
            },
            is_symlink,
        ),
{
    if is_dir {
        return text::owned("Folder");
    }
    let name = match kind_name {
        Some(n) => text::owned(n),
        None => text::owned("unknown"),
    };
    if is_symlink {
        return text::concat("Symlink -> ", name.as_str());
    }
    name
}

/// The type of a file as shown: a folder; else the type `file_type` names for its extension,
/// or `unknown`; a symbolic link as `Symlink -> ` and that type.
pub open spec fn spec_get_filetype(path: Seq<char>, is_dir: bool, is_symlink: bool) -> Seq<char> {
    spec_file_type_label(
        is_dir,
        if is_dir {
            None
        } else {
            spec_file_type_name(info::spec_file_extension(path))
        },
        is_symlink,
    )
}

/// The type of the file at `path`, from whether it is a folder and whether it is a link.
pub fn get_filetype(path: &str, is_dir: bool, is_symlink: bool) -> (res: String)
    ensures
        res@ == spec_get_filetype(path@, is_dir, is_symlink),
{
    if is_dir {
        return file_type_label(true, None, is_symlink);
    }
    let ext = info::file_extension(path);
    match file_type_name(ext.as_str()) {
        Some(n) => file_type_label(false, Some(n.as_str()), is_symlink),
        None => file_type_label(false, None, is_symlink),
    }
}

/// A time read from a file's metadata, in seconds since the epoch: 0 where the metadata could
/// not be read (`secs` is nothing).
pub fn get_fileaccessed(secs: Option<u64>) -> (res: i64)
    requires
        secs matches Some(s) ==> s <= i64::MAX,
    ensures
        res == match secs {
            Some(s) => s as int,
            None => 0,
        },
{
    match secs {
        Some(s) => s as i64,
        None => 0,
    }
}

/// The creation time of a file, in seconds since the epoch: 0 where the metadata could not be
/// read (`secs` is nothing).
pub fn get_filecreated(secs: Option<u64>) -> (res: i64)
    requires
        secs matches Some(s) ==> s <= i64::MAX,
    ensures
        res == match secs {
            Some(s) => s as int,
            None => 0,
        },
{
    get_fileaccessed(secs)
}

/// A size in bytes as shown.
pub fn convert_bytes_to_string(size: &u64) -> (res: String)
    ensures
        res@ == ui::spec_bytes_to_string(*size),
{
    ui::bytes_to_string(*size)
}

/// A file is hidden when its name without the extension starts with a dot.
pub open spec fn spec_is_hidden(path: Seq<char>, is_dir: bool) -> bool {
    let n = info::spec_name_without_extension(path, is_dir);
    n.len() > 0 && n[0] == '.'
}

/// Whether the file at `path` (a folder where `is_dir`) is hidden.
pub fn is_hidden(path: &str, is_dir: bool) -> (res: bool)
    requires
        paths::spec_file_name(path@) is Some,
    ensures
        res == spec_is_hidden(path@, is_dir),
{
    let n = get_filename(path, is_dir);
    let v = text::chars_of(n.as_str());
    v.len() > 0 && v[0] == '.'
}

/// Reads `typed`, relative to `current`, as the path of a new file or folder; the banned
/// characters are `\0`, `"` and `/`.
pub fn create_target(current: &str, typed: &str) -> (res: NewPath)
    ensures
        file_system::spec_blank(typed@) ==> res == NewPath::Blank,
        !file_system::spec_blank(typed@) && file_system::spec_invalid(typed@, false) ==> res
            == NewPath::Invalid,
        !file_system::spec_blank(typed@) && !file_system::spec_invalid(typed@, false) ==> (res matches NewPath::Valid(
            p,
        ) && p@ == file_system::spec_created_path(current@, typed@)),
{
    file_system::new_path_target(current, typed, false)
}

/// The step of a paste of `item` onto `target`: a free target takes the item; else a duplicate
/// is made, or, merging, the target is replaced (one folder deeper where the folder it is in
/// is a file), unless the target is the item itself, which is left as it is.
pub open spec fn spec_operation_step(
    choice: OperationChoice,
    item: Seq<char>,
    target: Seq<char>,
    target_exists: bool,
    folder_is_file: bool,
) -> PasteStep {
    if !target_exists {
        PasteStep::Transfer
    } else {
        match choice {
            OperationChoice::Duplicate => PasteStep::Duplicate,
            OperationChoice::Merge => if paths::spec_same_path(item, target) {
                PasteStep::Keep
            } else if !folder_is_file {
                PasteStep::Replace
            } else {
                PasteStep::Descend
            },
        }
    }
}

/// Decides the step of a paste of `item` onto `target`.
pub fn operation_step(
    choice: &OperationChoice,
    item: &str,
    target: &str,
    target_exists: bool,
    folder_is_file: bool,
) -> (res: PasteStep)
    ensures
        res == spec_operation_step(*choice, item@, target@, target_exists, folder_is_file),
{
    if !target_exists {
        return PasteStep::Transfer;
    }
    match choice {
        OperationChoice::Duplicate => PasteStep::Duplicate,
        OperationChoice::Merge => {
            if paths::same_path(item, target) {
                PasteStep::Keep
            } else if !folder_is_file {
                PasteStep::Replace
            } else {
                PasteStep::Descend
            }
        },
    }
}

/// Where a move into `dest` sends each of `old_files` (see `file_system::move_dir`).
pub fn move_dir(old_files: &Vec<String>, dest: &str, dest_is_dir: bool) -> (res: Vec<Option<String>>)
    requires
        file_system::all_named(old_files@),
    ensures
        !dest_is_dir ==> res@.len() == 0,
        dest_is_dir ==> res@.len() == old_files@.len(),
        dest_is_dir ==> forall|i: int|
            0 <= i < res@.len() ==> match #[trigger] res@[i] {
                Some(t) => !file_system::spec_in_folder(old_files@[i]@, dest@) && t@
                    == file_system::spec_first_target(old_files@[i]@, dest@)
                    && file_system::spec_in_folder(t@, dest@),
                None => file_system::spec_in_folder(old_files@[i]@, dest@),
            },
{
    file_system::move_dir(old_files, dest, dest_is_dir)
}

/// Where a copy into `dest` sends each of `old_files` (see `file_system::copy_dir`).
pub fn copy_dir(old_files: &Vec<String>, dest: &str, dest_is_dir: bool) -> (res: Vec<Option<String>>)
    requires
        file_system::all_named(old_files@),
    ensures
        !dest_is_dir ==> res@.len() == 0,
        dest_is_dir ==> res@.len() == old_files@.len(),
        dest_is_dir ==> forall|i: int|
            0 <= i < res@.len() ==> (#[trigger] res@[i] matches Some(t) && t@
                == file_system::spec_first_target(old_files@[i]@, dest@)
                && file_system::spec_in_folder(t@, dest@)),
{
    file_system::copy_dir(old_files, dest, dest_is_dir)
}

} // verus!
