use buoyant::paths;
use buoyant::text;

#[test]
fn file_name_is_the_last_component() {
    assert_eq!(paths::file_name("/home/user/file.txt"), Some(String::from("file.txt")));
    assert_eq!(paths::file_name("a/b/"), Some(String::from("b")));
    assert_eq!(paths::file_name("a/b/."), Some(String::from("b")));
    assert_eq!(paths::file_name("/"), None);
    assert_eq!(paths::file_name("a/.."), None);
    assert_eq!(paths::file_name(""), None);
}

#[test]
fn extension_follows_the_last_dot() {
    assert_eq!(paths::extension("/x/archive.tar.gz"), Some(String::from("gz")));
    assert_eq!(paths::extension("/x/.bashrc"), None);
    assert_eq!(paths::extension("/x/noext"), None);
    assert_eq!(paths::extension("/x/a."), Some(String::new()));
}

#[test]
fn path_push_joins_with_one_separator() {
    assert_eq!(paths::path_push("/home", "user"), "/home/user");
    assert_eq!(paths::path_push("/home/", "user"), "/home/user");
    assert_eq!(paths::path_push("/home", "/etc"), "/etc");
    assert_eq!(paths::path_push("", "a"), "a");
}

#[test]
fn same_path_compares_components() {
    assert!(paths::same_path("/a//b/", "/a/b"));
    assert!(paths::same_path("a/./b", "a/b"));
    assert!(!paths::same_path("./a", "a"));
    assert!(!paths::same_path("/a", "a"));
    assert!(!paths::same_path("/a/b", "/a/c"));
}

#[test]
fn parent_path_drops_the_last_component() {
    assert_eq!(paths::parent_path("/home/user"), "/home");
    assert_eq!(paths::parent_path("/home/user/"), "/home");
    assert_eq!(paths::parent_path("/home"), "/");
    assert_eq!(paths::parent_path("/"), "/");
    assert_eq!(paths::parent_path("user"), "");
    assert_eq!(paths::parent_path("./a/b"), "./a");
    assert_eq!(paths::parent_path("a/../b"), "a/..");
}

#[test]
fn back_after_forward_returns_to_the_folder() {
    let folder = "/home/user";
    let child = paths::path_push(folder, "docs");
    assert!(paths::same_path(&paths::parent_path(&child), folder));
}

#[test]
fn trim_and_contains() {
    assert_eq!(text::trim("  a b \t"), "a b");
    assert_eq!(text::trim(""), "");
    assert!(text::contains("hello world", "o w"));
    assert!(text::contains("hello", ""));
    assert!(!text::contains("hello", "hex"));
}

#[test]
fn decimal_writes_numbers() {
    assert_eq!(text::decimal(0), "0");
    assert_eq!(text::decimal(1234), "1234");
    assert_eq!(text::decimal(u64::MAX), "18446744073709551615");
}

#[test]
fn split_and_last_index() {
    let v: Vec<char> = "a+b++c".chars().collect();
    let parts = text::split_chars(&v, '+');
    let as_strings: Vec<String> = parts.iter().map(|p| p.iter().collect()).collect();
    assert_eq!(as_strings, vec!["a", "b", "", "c"]);
    assert_eq!(text::last_index_of(&v, '+'), Some(4));
    assert_eq!(text::last_index_of(&v, 'z'), None);
}
