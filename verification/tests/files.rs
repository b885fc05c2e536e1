use buoyant::file::icons::IconKind;
use buoyant::file::{info, types, PasteKind};
use buoyant::file_system::{self, NewPath, PasteStep};
use buoyant::file_types;
use buoyant::path::{self as oldpath, OperationChoice};

#[test]
fn name_without_extension() {
    assert_eq!(info::file_name_without_extension("/x/photo.png", false), "photo");
    assert_eq!(info::file_name_without_extension("/x/a.tar.gz", false), "a.tar");
    assert_eq!(info::file_name_without_extension("/x/.bashrc", false), ".bashrc");
    assert_eq!(info::file_name_without_extension("/x/dir.d", true), "dir.d");
    assert_eq!(file_system::file_name("/x/photo.png", false), "photo");
    assert_eq!(oldpath::get_filename("/x/photo.png", false), "photo");
}

#[test]
fn extension_or_nothing() {
    assert_eq!(info::file_extension("/x/a.tar.gz"), "gz");
    assert_eq!(info::file_extension("/x/README"), "");
}

#[test]
fn file_types_by_extension() {
    assert_eq!(types::extension_to_file_type("png"), Some(("PNG Image", IconKind::Image)));
    assert_eq!(types::extension_to_file_type("rs"), Some(("Rust Source File", IconKind::RustSrc)));
    assert_eq!(types::extension_to_file_type("zzz"), None);
    assert_eq!(file_types::extension_to_file_type("png"), Some("PNG Image"));
    assert_eq!(file_types::extension_to_file_type("zzz"), None);
}

#[test]
fn file_type_decisions() {
    assert_eq!(info::file_type(true, "", false, false), ("Folder", IconKind::Folder));
    assert_eq!(info::file_type(false, "png", false, false), ("PNG Image", IconKind::Image));
    assert_eq!(info::file_type(false, "zzz", true, false), ("Text File", IconKind::File));
    assert_eq!(info::file_type(false, "zzz", false, false), ("Unknown", IconKind::QuestionMark));
    assert_eq!(info::file_type(false, "zzz", false, true), ("Symlink", IconKind::BrokenLink));
    assert_eq!(info::file_type(false, "png", false, true), ("Symlink", IconKind::Link));
    assert_eq!(file_system::file_type(false, "zzz", false, true), ("Symlink", IconKind::BrokenLink));
    assert!(info::needs_text_probe(false, "zzz"));
    assert!(!info::needs_text_probe(false, "png"));
    assert!(!info::needs_text_probe(true, "zzz"));
}

#[test]
fn text_probe_reads_ascii() {
    assert!(info::is_textfile(b"hello, world\n"));
    assert!(info::is_textfile(b""));
    assert!(!info::is_textfile(&[104, 105, 0xff]));
}

#[test]
fn hidden_files_start_with_a_dot() {
    assert!(info::is_hidden("/x/.git"));
    assert!(!info::is_hidden("/x/a"));
    assert!(!info::is_hidden("/"));
    assert!(file_system::is_hidden("/x/.cache"));
    assert!(oldpath::is_hidden("/x/.config", true));
    assert!(!oldpath::is_hidden("/x/file.txt", false));
}

#[test]
fn times_asked_for() {
    assert_eq!(info::accessed_and_created(Some((10, 20)), &true, &false), (Some(10), None));
    assert_eq!(info::accessed_and_created(Some((10, 20)), &true, &true), (Some(10), Some(20)));
    assert_eq!(info::accessed_and_created(None, &true, &true), (None, None));
    assert_eq!(info::accessed_and_created(Some((1, 2)), &false, &false), (None, None));
    assert_eq!(file_system::accessed_and_created(Some((3, 4)), &false, &true), (None, Some(4)));
    assert_eq!(oldpath::get_fileaccessed(Some(5)), 5);
    assert_eq!(oldpath::get_filecreated(None), 0);
}

#[test]
fn nested_creation_under_the_current_folder() {
    assert_eq!(
        file_system::create_target("/home/u", "hey/michael/vsauce/here"),
        Ok(String::from("/home/u/hey/michael/vsauce/here"))
    );
    assert_eq!(file_system::create_target("/home/u", "./x"), Ok(String::from("/home/u/./x")));
    assert_eq!(file_system::create_target("/home/u", "a//b/"), Ok(String::from("/home/u/a/b")));
}

#[test]
fn creation_refusals() {
    assert_eq!(
        file_system::create_target("/home/u", ""),
        Err(String::from("maybe dont leave the input box blank?"))
    );
    assert_eq!(file_system::create_target("/home/u", "a*b"), Err(String::from("invalid characters")));
    assert_eq!(file_system::create_target("/home/u", "/abs"), Err(String::from("invalid characters")));
    assert_eq!(file_system::create_target("/home/u", "a\"b"), Err(String::from("invalid characters")));
    assert_eq!(oldpath::create_target("/h", "a*b"), NewPath::Valid(String::from("/h/a*b")));
    assert_eq!(oldpath::create_target("/h", "a\0b"), NewPath::Invalid);
    assert_eq!(oldpath::create_target("/h", ""), NewPath::Blank);
}

#[test]
fn paste_steps() {
    assert_eq!(file_system::paste_step(&PasteKind::Replace, "/a/f", "/b/f", false, false), PasteStep::Transfer);
    assert_eq!(file_system::paste_step(&PasteKind::Duplicate, "/a/f", "/b/f", true, false), PasteStep::Duplicate);
    assert_eq!(file_system::paste_step(&PasteKind::Replace, "/b/f", "/b//f", true, false), PasteStep::Keep);
    assert_eq!(file_system::paste_step(&PasteKind::Replace, "/a/f", "/b/f", true, false), PasteStep::Replace);
    assert_eq!(file_system::paste_step(&PasteKind::Replace, "/a/f", "/b/f", true, true), PasteStep::Descend);
    assert_eq!(oldpath::operation_step(&OperationChoice::Merge, "/d", "/d", true, false), PasteStep::Keep);
    assert_eq!(oldpath::operation_step(&OperationChoice::Merge, "/d", "/d/x", true, false), PasteStep::Replace);
    assert_eq!(oldpath::operation_step(&OperationChoice::Merge, "/d", "/d/x", true, true), PasteStep::Descend);
    assert_eq!(oldpath::operation_step(&OperationChoice::Duplicate, "/d", "/d", true, false), PasteStep::Duplicate);
    assert_eq!(oldpath::operation_step(&OperationChoice::Merge, "/d", "/d", false, false), PasteStep::Transfer);
}

#[test]
fn paste_into_own_folder_keeps_the_item() {
    let (folder, target) = file_system::paste_location("/b", &Vec::new(), "f");
    assert_eq!(folder, "/b");
    assert_eq!(target, "/b/f");
    assert_eq!(file_system::paste_step(&PasteKind::Replace, "/b/f", &target, true, false), PasteStep::Keep);
}

#[test]
fn paste_locations_and_duplicate_names() {
    let (folder, target) = file_system::paste_location("/dest", &vec![vec!['x']], "f");
    assert_eq!(folder, "/dest/x");
    assert_eq!(target, "/dest/x/f");
    assert_eq!(file_system::dotted_extension("png"), ".png");
    assert_eq!(file_system::dotted_extension(""), "");
    assert_eq!(file_system::numbered_name("photo", ".png", 0), "photo.png");
    assert_eq!(file_system::numbered_name("photo", ".png", 2), "photo (2).png");
    assert_eq!(file_system::increment_suffix("photo", ".png", "/d", 3), "/d/photo (3).png");
    assert_eq!(file_system::increment_suffix("notes", "", "/d/", 0), "/d/notes");
    let tried: Vec<String> = (0..12).map(|k| file_system::numbered_name("a (1)", ".txt", k)).collect();
    for i in 0..tried.len() {
        for j in 0..i {
            assert_ne!(tried[i], tried[j]);
        }
    }
}

#[test]
fn duplicates_take_the_least_free_name() {
    assert_eq!(file_system::least_free(&vec![true, true, false, false]), Some(2));
    assert_eq!(file_system::least_free(&vec![false]), Some(0));
    assert_eq!(file_system::least_free(&vec![true, true]), None);
    assert_eq!(file_system::least_free(&vec![]), None);
    assert_eq!(
        file_system::duplicate_target("photo", ".png", "/d", &vec![true, true, false]),
        Some(String::from("/d/photo (2).png"))
    );
    assert_eq!(
        file_system::duplicate_target("notes", "", "/d", &vec![false, false]),
        Some(String::from("/d/notes"))
    );
    assert_eq!(file_system::duplicate_target("notes", "", "/d", &vec![true]), None);
}

#[test]
fn move_and_copy_plans() {
    let files = vec![String::from("/a/x"), String::from("/b/y")];
    let some = |p: &str| Some(String::from(p));
    assert_eq!(file_system::move_dir(&files, "/a", true), vec![None, some("/a/y")]);
    assert_eq!(file_system::move_dir(&files, "/a", false), Vec::<Option<String>>::new());
    assert_eq!(file_system::copy_dir(&files, "/a", true), vec![some("/a/x"), some("/a/y")]);
    assert_eq!(file_system::copy_dir(&files, "/a", false), Vec::<Option<String>>::new());
    assert_eq!(oldpath::move_dir(&files, "/b/", true), vec![some("/b/x"), None]);
    assert_eq!(oldpath::copy_dir(&files, "/b", true), vec![some("/b/x"), some("/b/y")]);
    assert!(file_system::in_folder("/a/x", "/a/"));
    assert!(!file_system::in_folder("/a/x/y", "/a"));
    assert!(file_system::in_folder("x", ""));
}

#[test]
fn old_layout_file_types() {
    assert_eq!(oldpath::get_filetype("/x/dir", true, false), "Folder");
    assert_eq!(oldpath::get_filetype("/x/a.zzzzunknown", false, false), "unknown");
    assert_eq!(oldpath::get_filetype("/x/a.zzzzunknown", false, true), "Symlink -> unknown");
    let png = oldpath::get_filetype("/x/a.png", false, false);
    assert!(png.contains("Portable Network Graphics"), "{}", png);
    let linked = oldpath::get_filetype("/x/a.png", false, true);
    assert!(linked.starts_with("Symlink -> "));
    assert_eq!(oldpath::convert_bytes_to_string(&1500), "1KiB");
    assert_eq!(file_system::bytes_to_string(999), "999 bytes");
}

#[test]
fn file_type_labels() {
    assert_eq!(oldpath::file_type_label(true, Some("PNG"), true), "Folder");
    assert_eq!(oldpath::file_type_label(false, Some("PNG"), false), "PNG");
    assert_eq!(oldpath::file_type_label(false, Some("PNG"), true), "Symlink -> PNG");
    assert_eq!(oldpath::file_type_label(false, None, false), "unknown");
}

#[test]
fn stem_and_extension_make_the_name() {
    for (path, name) in [("/x/photo.png", "photo.png"), ("/x/a.tar.gz", "a.tar.gz"), ("/x/.bashrc", ".bashrc"), ("/x/plain", "plain")] {
        let stem = info::file_name_without_extension(path, false);
        let ext = file_system::dotted_extension(&info::file_extension(path));
        assert_eq!(format!("{}{}", stem, ext), name);
    }
}
