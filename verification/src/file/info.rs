//! What is known of a file from its path and a few facts read from the disk.

use crate::file::icons::IconKind;
use crate::file::types;
use crate::paths;
use crate::text;
use rayon::iter::{IntoParallelRefIterator, ParallelIterator};
use vstd::prelude::*;

verus! {

/// The file name of `path` without its extension; a folder's name is kept whole, and a name
/// whose only dot leads it (a hidden file) keeps it.
pub open spec fn spec_name_without_extension(path: Seq<char>, is_dir: bool) -> Seq<char> {
    let name = paths::spec_file_name(path)->0;
    if is_dir {
        name
    } else {
        let i = text::spec_last_index_of(name, '.');
        if i > 0 {
            name.subrange(0, i)
        } else {
            name
        }
    }
}

/// The file name of `path` (a folder where `is_dir`) without its extension.
pub fn file_name_without_extension(path: &str, is_dir: bool) -> (res: String)
    requires
        paths::spec_file_name(path@) is Some,
    ensures
        res@ == spec_name_without_extension(path@, is_dir),
{
    let name = match paths::file_name(path) {
        Some(n) => n,
        None => String::new(),
    };
    if is_dir {
        return name;
    }
    let v = text::chars_of(name.as_str());
    match text::last_index_of(&v, '.') {
        Some(i) => {
            if i != 0 {
                proof {
                    text::lemma_last_index_of(v@, '.');
                }
                text::string_from_chars(&text::prefix_chars(&v, i))
            } else {
                name
            }
        },
        None => name,
    }
}

/// The extension of `path`, or nothing.
pub open spec fn spec_file_extension(path: Seq<char>) -> Seq<char> {
    match paths::spec_extension(path) {
        Some(e) => e,
        None => Seq::empty(),
    }
}

/// The extension of `path`, empty where it has none.
pub fn file_extension(path: &str) -> (res: String)
    ensures
        res@ == spec_file_extension(path@),
{
    match paths::extension(path) {
        Some(e) => e,
        None => {
            let empty = String::new();
            assert(empty@ =~= Seq::<char>::empty());
            empty
        },
    }
}

/// Whether a byte is ASCII.
pub fn byte_is_ascii(b: u8) -> (res: bool)
    ensures
        res == (b < 128),
{
    b < 128
}

/// Whether every byte of `buf` is ASCII, checked with `rayon`'s `par_iter().all(..)`.
#[verifier::external_body]
pub(crate) fn all_ascii(buf: &[u8]) -> (res: bool)
    ensures
        res == (forall|i: int| 0 <= i < buf@.len() ==> buf@[i] < 128),
{
    buf.par_iter().all(|b| byte_is_ascii(*b))
}

/// Whether the first bytes read from a file (`head`) look like text: all of them ASCII.
pub fn is_textfile(head: &[u8]) -> (res: bool)
    ensures
        res == (forall|i: int| 0 <= i < head@.len() ==> head@[i] < 128),
{
    all_ascii(head)
}

/// Whether the type of a file can only be told from its content: it is not a folder and its
/// extension is not a known one.
pub fn needs_text_probe(is_dir: bool, extension: &str) -> (res: bool)
    ensures
        res == (!is_dir && types::spec_extension_to_file_type(extension@) is None),
{
    !is_dir && types::extension_to_file_type(extension).is_none()
}

/// The description and icon of a file: a folder; else by its extension where known, else a
/// text file where its first bytes are ASCII, else unknown; a symbolic link is shown as a link,
/// broken where its type is unknown.
pub open spec fn spec_file_type(is_dir: bool, extension: Seq<char>, is_textfile: bool, is_symlink: bool) -> (
    &'static str,
    IconKind,
) {
    if is_dir {
        ("Folder", IconKind::Folder)
    } else {
        let found = types::spec_extension_to_file_type(extension);
        let t = if found is Some {
            found->0
        } else if is_textfile {
            ("Text File", IconKind::File)
        } else {
            ("Unknown", IconKind::QuestionMark)
        };
        if is_symlink {
            if t.0@ == "Unknown"@ {
                ("Symlink", IconKind::BrokenLink)
            } else {
                ("Symlink", IconKind::Link)
            }
        } else {
            t
        }
    }
}

/// The description and icon of a file, from whether it is a folder, its extension, whether its
/// content looks like text (consulted only where the extension is unknown), and whether it is a
/// symbolic link.
pub fn file_type(is_dir: bool, extension: &str, is_textfile: bool, is_symlink: bool) -> (res: (
    &'static str,
    IconKind,
))
    ensures
        res == spec_file_type(is_dir, extension@, is_textfile, is_symlink),
{
    if is_dir {
        return ("Folder", IconKind::Folder);
    }
    let t: (&'static str, IconKind) = match types::extension_to_file_type(extension) {
        Some(thing) => thing,
        None => {
            if is_textfile {
                ("Text File", IconKind::File)
            } else {
                ("Unknown", IconKind::QuestionMark)
            }
        },
    };
    if is_symlink {
        if text::str_eq(t.0, "Unknown") {
            return ("Symlink", IconKind::BrokenLink);
        }
        return ("Symlink", IconKind::Link);
    }
    t
}

/// A path is hidden when its file name starts with a dot.
pub open spec fn spec_is_hidden(path: Seq<char>) -> bool {
    match paths::spec_file_name(path) {
        Some(n) => n.len() > 0 && n[0] == '.',
        None => false,
    }
}

/// Whether the file at `path` is hidden.
pub fn is_hidden(path: &str) -> (res: bool)
    ensures
        res == spec_is_hidden(path@),
{
    match paths::file_name(path) {
        Some(n) => {
            let v = text::chars_of(n.as_str());
            v.len() > 0 && v[0] == '.'
        },
        None => false,
    }
}

/// The access and creation times, in seconds since the epoch, of the ones asked for. `times`
/// holds what the disk gave, or nothing where the file's metadata could not be read.
pub fn accessed_and_created(times: Option<(u64, u64)>, fetch_accessed: &bool, fetch_created: &bool) -> (res: (
    Option<i64>,
    Option<i64>,
))
    requires
        times matches Some(t) ==> (*fetch_accessed ==> t.0 <= i64::MAX) && (*fetch_created ==> t.1
            <= i64::MAX),
    ensures
        res == match times {
            Some(t) => (
                if *fetch_accessed {
                    Some(t.0 as i64)
                } else {
                    None
                },
                if *fetch_created {
                    Some(t.1 as i64)
                } else {
                    None
                },
            ),
            None => (None, None),
        },
{
    if !*fetch_accessed && !*fetch_created {
        return (None, None);
    }
    match times {
        Some(t) => (
            if *fetch_accessed {
                Some(t.0 as i64)
            } else {
                None
            },
            if *fetch_created {
                Some(t.1 as i64)
            } else {
                None
            },
        ),
        None => (None, None),
    }
}

} // verus!
