//! What the explorer's fixed tables say: the key names a keybind setting may use and the file
//! types told by extension, each entry as the settings documentation and the type list give it.

use crate::config::{self, Key};
use crate::file::icons::IconKind;
use crate::file::types;
use crate::file_types;
use vstd::prelude::*;

verus! {

/// The key names a keybind setting may use, as the settings documentation lists them (with the
/// function keys `f1` to `f35`, and `i`, `?` and `|`, which are read too).
pub open spec fn documented_key_names() -> Set<Seq<char>> {
    set!["a"@, "b"@, "c"@, "d"@, "e"@, "f"@, "g"@, "h"@, "i"@, "j"@, "k"@, "l"@, "m"@, "n"@, "o"@, "p"@, "q"@, "r"@, "t"@, "u"@, "v"@, "y"@, "w"@, "z"@, "arrowup"@, "arrowdown"@, "arrowright"@, "arrowleft"@, "`"@, "["@, "]"@, ","@, "="@, "-"@, "."@, "'"@, ";"@, "/"@, "?"@, "|"@, "backspace"@, "enter"@, "space"@, "tab"@, "delete"@, "end"@, "home"@, "insert"@, "pagedown"@, "pageup"@, "escape"@, "0"@, "1"@, "2"@, "3"@, "4"@, "5"@, "6"@, "7"@, "8"@, "9"@, "f1"@, "f2"@, "f3"@, "f4"@, "f5"@, "f6"@, "f7"@, "f8"@, "f9"@, "f10"@, "f11"@, "f12"@, "f13"@, "f14"@, "f15"@, "f16"@, "f17"@, "f18"@, "f19"@, "f20"@, "f21"@, "f22"@, "f23"@, "f24"@, "f25"@, "f26"@, "f27"@, "f28"@, "f29"@, "f30"@, "f31"@, "f32"@, "f33"@, "f34"@, "f35"@]
}

/// Each documented key name reads as the key of that name (first part of the list): `end` is
/// the End key and `home` the Home key, `f2` is F2, and so on.
pub proof fn law_key_names_first()
    ensures
        config::key_named("a"@) == Key::A,
        config::key_named("b"@) == Key::B,
        config::key_named("c"@) == Key::C,
        config::key_named("d"@) == Key::D,
        config::key_named("e"@) == Key::E,
        config::key_named("f"@) == Key::F,
        config::key_named("g"@) == Key::G,
        config::key_named("h"@) == Key::H,
        config::key_named("i"@) == Key::I,
        config::key_named("j"@) == Key::J,
        config::key_named("k"@) == Key::K,
        config::key_named("l"@) == Key::L,
        config::key_named("m"@) == Key::M,
        config::key_named("n"@) == Key::N,
        config::key_named("o"@) == Key::O,
        config::key_named("p"@) == Key::P,
        config::key_named("q"@) == Key::Q,
        config::key_named("r"@) == Key::R,
        config::key_named("t"@) == Key::T,
        config::key_named("u"@) == Key::U,
        config::key_named("v"@) == Key::V,
        config::key_named("y"@) == Key::Y,
        config::key_named("w"@) == Key::W,
        config::key_named("z"@) == Key::Z,
{
    reveal(config::key_named);
    lemma_key_name_letters();
}

/// Each documented key name reads as the key of that name (second part of the list): `end` is
/// the End key and `home` the Home key, `f2` is F2, and so on.
pub proof fn law_key_names_second()
    ensures
        config::key_named("arrowup"@) == Key::ArrowUp,
        config::key_named("arrowdown"@) == Key::ArrowDown,
        config::key_named("arrowright"@) == Key::ArrowRight,
        config::key_named("arrowleft"@) == Key::ArrowLeft,
        config::key_named("`"@) == Key::Backtick,
        config::key_named("["@) == Key::OpenBracket,
        config::key_named("]"@) == Key::CloseBracket,
        config::key_named(","@) == Key::Comma,
        config::key_named("="@) == Key::Equals,
        config::key_named("-"@) == Key::Minus,
        config::key_named("."@) == Key::Period,
        config::key_named("'"@) == Key::Quote,
        config::key_named(";"@) == Key::Semicolon,
        config::key_named("/"@) == Key::Slash,
        config::key_named("?"@) == Key::Questionmark,
        config::key_named("|"@) == Key::Pipe,
        config::key_named("backspace"@) == Key::Backspace,
        config::key_named("enter"@) == Key::Enter,
        config::key_named("space"@) == Key::Space,
        config::key_named("tab"@) == Key::Tab,
        config::key_named("delete"@) == Key::Delete,
        config::key_named("end"@) == Key::End,
        config::key_named("home"@) == Key::Home,
        config::key_named("insert"@) == Key::Insert,
{
    reveal(config::key_named);
    lemma_key_name_letters();
}

/// Each documented key name reads as the key of that name (third part of the list): `end` is
/// the End key and `home` the Home key, `f2` is F2, and so on.
pub proof fn law_key_names_third()
    ensures
        config::key_named("pagedown"@) == Key::PageDown,
        config::key_named("pageup"@) == Key::PageUp,
        config::key_named("escape"@) == Key::Escape,
        config::key_named("0"@) == Key::Num0,
        config::key_named("1"@) == Key::Num1,
        config::key_named("2"@) == Key::Num2,
        config::key_named("3"@) == Key::Num3,
        config::key_named("4"@) == Key::Num4,
        config::key_named("5"@) == Key::Num5,
        config::key_named("6"@) == Key::Num6,
        config::key_named("7"@) == Key::Num7,
        config::key_named("8"@) == Key::Num8,
        config::key_named("9"@) == Key::Num9,
        config::key_named("f1"@) == Key::F1,
        config::key_named("f2"@) == Key::F2,
        config::key_named("f3"@) == Key::F3,
        config::key_named("f4"@) == Key::F4,
        config::key_named("f5"@) == Key::F5,
        config::key_named("f6"@) == Key::F6,
        config::key_named("f7"@) == Key::F7,
        config::key_named("f8"@) == Key::F8,
        config::key_named("f9"@) == Key::F9,
        config::key_named("f10"@) == Key::F10,
        config::key_named("f11"@) == Key::F11,
{
    reveal(config::key_named);
    lemma_key_name_letters();
}

/// Each documented key name reads as the key of that name (fourth part of the list): `end` is
/// the End key and `home` the Home key, `f2` is F2, and so on.
pub proof fn law_key_names_fourth()
    ensures
        config::key_named("f12"@) == Key::F12,
        config::key_named("f13"@) == Key::F13,
        config::key_named("f14"@) == Key::F14,
        config::key_named("f15"@) == Key::F15,
        config::key_named("f16"@) == Key::F16,
        config::key_named("f17"@) == Key::F17,
        config::key_named("f18"@) == Key::F18,
        config::key_named("f19"@) == Key::F19,
        config::key_named("f20"@) == Key::F20,
        config::key_named("f21"@) == Key::F21,
        config::key_named("f22"@) == Key::F22,
        config::key_named("f23"@) == Key::F23,
        config::key_named("f24"@) == Key::F24,
        config::key_named("f25"@) == Key::F25,
        config::key_named("f26"@) == Key::F26,
        config::key_named("f27"@) == Key::F27,
        config::key_named("f28"@) == Key::F28,
        config::key_named("f29"@) == Key::F29,
        config::key_named("f30"@) == Key::F30,
        config::key_named("f31"@) == Key::F31,
        config::key_named("f32"@) == Key::F32,
        config::key_named("f33"@) == Key::F33,
        config::key_named("f34"@) == Key::F34,
        config::key_named("f35"@) == Key::F35,
{
    reveal(config::key_named);
    lemma_key_name_letters();
}

/// A key name that is not documented reads as F35, the key no keyboard has.
pub proof fn law_undocumented_key_names(name: Seq<char>)
    requires
        !documented_key_names().contains(name),
    ensures
        config::key_named(name) == Key::F35,
{
    reveal(config::key_named);
}

/// The extensions whose files the explorer describes by their extension alone.
pub open spec fn known_extensions() -> Set<Seq<char>> {
    set!["png"@, "jpg"@, "jpeg"@, "webp"@, "avif"@, "gif"@, "svg"@, "ase"@, "aseprite"@, "xcf"@, "mp4"@, "avi"@, "mov"@, "wmv"@, "mkv"@, "m4v"@, "mp3"@, "opus"@, "flac"@, "wav"@, "aiff"@, "ogg"@, "rs"@, "py"@, "c"@, "cpp"@, "jar"@, "java"@, "js"@, "ts"@, "go"@, "tsx"@, "jsx"@, "txt"@, "cs"@, "csx"@, "asm"@, "md"@, "css"@, "toml"@, "vue"@, "sh"@, "bat"@, "json"@, "html"@, "7z"@, "zip"@, "rar"@, "dmg"@, "apk"@, "db"@, "sqlite"@, "sqlite3"@, "sqlite-wal"@, "blend"@, "bin"@, "blend1"@, "dll"@]
}

/// Each known extension reads as its own description and icon (images to sources):
/// `jpg` and `jpeg` are JPEG images, `png` a PNG image, and so on.
pub proof fn law_file_types_images_to_sources()
    ensures
        types::spec_extension_to_file_type("png"@) == Some(("PNG Image", IconKind::Image)),
        types::spec_extension_to_file_type("jpg"@) == Some(("JPEG Image", IconKind::Image)),
        types::spec_extension_to_file_type("jpeg"@) == Some(("JPEG Image", IconKind::Image)),
        types::spec_extension_to_file_type("webp"@) == Some(("WEBP Image", IconKind::Image)),
        types::spec_extension_to_file_type("avif"@) == Some(("AVIF Image", IconKind::Image)),
        types::spec_extension_to_file_type("gif"@) == Some(("GIF Animated Image", IconKind::Image)),
        types::spec_extension_to_file_type("svg"@) == Some(("SVG Image", IconKind::Image)),
        types::spec_extension_to_file_type("ase"@) == Some(("Aseprite Sprite", IconKind::Painting)),
        types::spec_extension_to_file_type("aseprite"@) == Some(("Aseprite Sprite", IconKind::Painting)),
        types::spec_extension_to_file_type("xcf"@) == Some(("GIMP Raw Image", IconKind::Image)),
        types::spec_extension_to_file_type("mp4"@) == Some(("MP4 Video", IconKind::Video)),
        types::spec_extension_to_file_type("avi"@) == Some(("AVI Video", IconKind::Video)),
        types::spec_extension_to_file_type("mov"@) == Some(("MOV Video", IconKind::Video)),
        types::spec_extension_to_file_type("wmv"@) == Some(("WMV Video", IconKind::Video)),
        types::spec_extension_to_file_type("mkv"@) == Some(("MKV Video", IconKind::Video)),
        types::spec_extension_to_file_type("m4v"@) == Some(("M4V Video", IconKind::Video)),
        types::spec_extension_to_file_type("mp3"@) == Some(("MP3 Audio", IconKind::Audio)),
        types::spec_extension_to_file_type("opus"@) == Some(("OPUS Audio", IconKind::Audio)),
        types::spec_extension_to_file_type("flac"@) == Some(("FLAC Audio", IconKind::Audio)),
        types::spec_extension_to_file_type("wav"@) == Some(("WAV Audio", IconKind::Audio)),
{
    reveal(types::spec_extension_to_file_type);
    lemma_extension_letters();
}

/// Each known extension reads as its own description and icon (sources to archives):
/// `jpg` and `jpeg` are JPEG images, `png` a PNG image, and so on.
pub proof fn law_file_types_sources_to_archives()
    ensures
        types::spec_extension_to_file_type("aiff"@) == Some(("AIFF Audio", IconKind::Audio)),
        types::spec_extension_to_file_type("ogg"@) == Some(("OGG Audio", IconKind::Audio)),
        types::spec_extension_to_file_type("rs"@) == Some(("Rust Source File", IconKind::RustSrc)),
        types::spec_extension_to_file_type("py"@) == Some(("Python Source File", IconKind::PySrc)),
        types::spec_extension_to_file_type("c"@) == Some(("C Source File", IconKind::CSrc)),
        types::spec_extension_to_file_type("cpp"@) == Some(("C++ Source File", IconKind::CppSrc)),
        types::spec_extension_to_file_type("jar"@) == Some(("Java Source File", IconKind::JavaSrc)),
        types::spec_extension_to_file_type("java"@) == Some(("Java Source File", IconKind::JavaSrc)),
        types::spec_extension_to_file_type("js"@) == Some(("JavaScript Source File", IconKind::JsSrc)),
        types::spec_extension_to_file_type("ts"@) == Some(("TypeScript Source File", IconKind::TsSrc)),
        types::spec_extension_to_file_type("go"@) == Some(("Golang Source File", IconKind::Src)),
        types::spec_extension_to_file_type("tsx"@) == Some(("React Source File", IconKind::TsxSrc)),
        types::spec_extension_to_file_type("jsx"@) == Some(("React Source File", IconKind::JsxSrc)),
        types::spec_extension_to_file_type("txt"@) == Some(("Text File", IconKind::Src)),
        types::spec_extension_to_file_type("cs"@) == Some(("C# Source File", IconKind::CsSrc)),
        types::spec_extension_to_file_type("csx"@) == Some(("C# Source File", IconKind::CsSrc)),
        types::spec_extension_to_file_type("asm"@) == Some(("Assembly Source File", IconKind::Src)),
        types::spec_extension_to_file_type("md"@) == Some(("Markdown Document", IconKind::MdSrc)),
        types::spec_extension_to_file_type("css"@) == Some(("Cascading Stylesheets", IconKind::CssSrc)),
        types::spec_extension_to_file_type("toml"@) == Some(("TOML Document", IconKind::Src)),
{
    reveal(types::spec_extension_to_file_type);
    lemma_extension_letters();
}

/// Each known extension reads as its own description and icon (archives to libraries):
/// `jpg` and `jpeg` are JPEG images, `png` a PNG image, and so on.
pub proof fn law_file_types_archives_to_libraries()
    ensures
        types::spec_extension_to_file_type("vue"@) == Some(("VUE Source File", IconKind::VueSrc)),
        types::spec_extension_to_file_type("sh"@) == Some(("Shell Script", IconKind::Script)),
        types::spec_extension_to_file_type("bat"@) == Some(("Batch Script", IconKind::Script)),
        types::spec_extension_to_file_type("json"@) == Some(("JavaScript Object Notation", IconKind::Src)),
        types::spec_extension_to_file_type("html"@) == Some(("HTML", IconKind::HtmlSrc)),
        types::spec_extension_to_file_type("7z"@) == Some(("7-Zip Archive", IconKind::Archive)),
        types::spec_extension_to_file_type("zip"@) == Some(("ZIP Archive", IconKind::Archive)),
        types::spec_extension_to_file_type("rar"@) == Some(("RAR Archive", IconKind::Archive)),
        types::spec_extension_to_file_type("dmg"@) == Some(("Apple Disk Image", IconKind::Archive)),
        types::spec_extension_to_file_type("apk"@) == Some(("Android Application Package", IconKind::Archive)),
        types::spec_extension_to_file_type("db"@) == Some(("Database", IconKind::Database)),
        types::spec_extension_to_file_type("sqlite"@) == Some(("SQL Database", IconKind::Sqlite)),
        types::spec_extension_to_file_type("sqlite3"@) == Some(("SQL Database", IconKind::Sqlite)),
        types::spec_extension_to_file_type("sqlite-wal"@) == Some(("SQL Database", IconKind::Sqlite)),
        types::spec_extension_to_file_type("blend"@) == Some(("Blender Model", IconKind::Cube)),
        types::spec_extension_to_file_type("bin"@) == Some(("Binary File", IconKind::File)),
        types::spec_extension_to_file_type("blend1"@) == Some(("Blender Backup Model", IconKind::Cube)),
        types::spec_extension_to_file_type("dll"@) == Some(("Dynamic-Link Library", IconKind::Link)),
{
    reveal(types::spec_extension_to_file_type);
    lemma_extension_letters();
}

/// An extension that is not among the known ones gives no description.
pub proof fn law_unknown_extensions(extension: Seq<char>)
    requires
        !known_extensions().contains(extension),
    ensures
        types::spec_extension_to_file_type(extension) is None,
        file_types::spec_extension_to_file_type(extension) is None,
{
    reveal(types::spec_extension_to_file_type);
    reveal(file_types::spec_extension_to_file_type);
}

/// The description table of `file_types` reads each known extension as the same description
/// as `file::types` does (images to sources).
pub proof fn law_type_descriptions_images_to_sources()
    ensures
        file_types::spec_extension_to_file_type("png"@) == Some("PNG Image"),
        file_types::spec_extension_to_file_type("jpg"@) == Some("JPEG Image"),
        file_types::spec_extension_to_file_type("jpeg"@) == Some("JPEG Image"),
        file_types::spec_extension_to_file_type("webp"@) == Some("WEBP Image"),
        file_types::spec_extension_to_file_type("avif"@) == Some("AVIF Image"),
        file_types::spec_extension_to_file_type("gif"@) == Some("GIF Animated Image"),
        file_types::spec_extension_to_file_type("svg"@) == Some("SVG Image"),
        file_types::spec_extension_to_file_type("ase"@) == Some("Aseprite Sprite"),
        file_types::spec_extension_to_file_type("aseprite"@) == Some("Aseprite Sprite"),
        file_types::spec_extension_to_file_type("xcf"@) == Some("GIMP Raw Image"),
        file_types::spec_extension_to_file_type("mp4"@) == Some("MP4 Video"),
        file_types::spec_extension_to_file_type("avi"@) == Some("AVI Video"),
        file_types::spec_extension_to_file_type("mov"@) == Some("MOV Video"),
        file_types::spec_extension_to_file_type("wmv"@) == Some("WMV Video"),
        file_types::spec_extension_to_file_type("mkv"@) == Some("MKV Video"),
        file_types::spec_extension_to_file_type("m4v"@) == Some("M4V Video"),
        file_types::spec_extension_to_file_type("mp3"@) == Some("MP3 Audio"),
        file_types::spec_extension_to_file_type("opus"@) == Some("OPUS Audio"),
        file_types::spec_extension_to_file_type("flac"@) == Some("FLAC Audio"),
        file_types::spec_extension_to_file_type("wav"@) == Some("WAV Audio"),
{
    reveal(file_types::spec_extension_to_file_type);
    lemma_extension_letters();
}

/// The description table of `file_types` reads each known extension as the same description
/// as `file::types` does (sources to archives).
pub proof fn law_type_descriptions_sources_to_archives()
    ensures
        file_types::spec_extension_to_file_type("aiff"@) == Some("AIFF Audio"),
        file_types::spec_extension_to_file_type("ogg"@) == Some("OGG Audio"),
        file_types::spec_extension_to_file_type("rs"@) == Some("Rust Source File"),
        file_types::spec_extension_to_file_type("py"@) == Some("Python Source File"),
        file_types::spec_extension_to_file_type("c"@) == Some("C Source File"),
        file_types::spec_extension_to_file_type("cpp"@) == Some("C++ Source File"),
        file_types::spec_extension_to_file_type("jar"@) == Some("Java Source File"),
        file_types::spec_extension_to_file_type("java"@) == Some("Java Source File"),
        file_types::spec_extension_to_file_type("js"@) == Some("JavaScript Source File"),
        file_types::spec_extension_to_file_type("ts"@) == Some("TypeScript Source File"),
        file_types::spec_extension_to_file_type("go"@) == Some("Golang Source File"),
        file_types::spec_extension_to_file_type("tsx"@) == Some("React Source File"),
        file_types::spec_extension_to_file_type("jsx"@) == Some("React Source File"),
        file_types::spec_extension_to_file_type("txt"@) == Some("Text File"),
        file_types::spec_extension_to_file_type("cs"@) == Some("C# Source File"),
        file_types::spec_extension_to_file_type("csx"@) == Some("C# Source File"),
        file_types::spec_extension_to_file_type("asm"@) == Some("Assembly Source File"),
        file_types::spec_extension_to_file_type("md"@) == Some("Markdown Document"),
        file_types::spec_extension_to_file_type("css"@) == Some("Cascading Stylesheets"),
        file_types::spec_extension_to_file_type("toml"@) == Some("TOML Document"),
{
    reveal(file_types::spec_extension_to_file_type);
    lemma_extension_letters();
}

/// The description table of `file_types` reads each known extension as the same description
/// as `file::types` does (archives to libraries).
pub proof fn law_type_descriptions_archives_to_libraries()
    ensures
        file_types::spec_extension_to_file_type("vue"@) == Some("VUE Source File"),
        file_types::spec_extension_to_file_type("sh"@) == Some("Shell Script"),
        file_types::spec_extension_to_file_type("bat"@) == Some("Batch Script"),
        file_types::spec_extension_to_file_type("json"@) == Some("JavaScript Object Notation"),
        file_types::spec_extension_to_file_type("7z"@) == Some("7-Zip Archive"),
        file_types::spec_extension_to_file_type("zip"@) == Some("ZIP Archive"),
        file_types::spec_extension_to_file_type("rar"@) == Some("RAR Archive"),
        file_types::spec_extension_to_file_type("dmg"@) == Some("Apple Disk Image"),
        file_types::spec_extension_to_file_type("apk"@) == Some("Android Application Package"),
        file_types::spec_extension_to_file_type("db"@) == Some("Database"),
        file_types::spec_extension_to_file_type("sqlite"@) == Some("SQL Database"),
        file_types::spec_extension_to_file_type("sqlite3"@) == Some("SQL Database"),
        file_types::spec_extension_to_file_type("sqlite-wal"@) == Some("SQL Database"),
        file_types::spec_extension_to_file_type("blend"@) == Some("Blender Model"),
        file_types::spec_extension_to_file_type("bin"@) == Some("Binary File"),
        file_types::spec_extension_to_file_type("blend1"@) == Some("Blender Backup Model"),
        file_types::spec_extension_to_file_type("dll"@) == Some("Dynamic-Link Library"),
{
    reveal(file_types::spec_extension_to_file_type);
    lemma_extension_letters();
}


/// The letters of each key name.
proof fn lemma_key_name_letters()
    ensures
        "a"@.len() == 1,
        "a"@[0] == 'a',
        "b"@.len() == 1,
        "b"@[0] == 'b',
        "c"@.len() == 1,
        "c"@[0] == 'c',
        "d"@.len() == 1,
        "d"@[0] == 'd',
        "e"@.len() == 1,
        "e"@[0] == 'e',
        "f"@.len() == 1,
        "f"@[0] == 'f',
        "g"@.len() == 1,
        "g"@[0] == 'g',
        "h"@.len() == 1,
        "h"@[0] == 'h',
        "i"@.len() == 1,
        "i"@[0] == 'i',
        "j"@.len() == 1,
        "j"@[0] == 'j',
        "k"@.len() == 1,
        "k"@[0] == 'k',
        "l"@.len() == 1,
        "l"@[0] == 'l',
        "m"@.len() == 1,
        "m"@[0] == 'm',
        "n"@.len() == 1,
        "n"@[0] == 'n',
        "o"@.len() == 1,
        "o"@[0] == 'o',
        "p"@.len() == 1,
        "p"@[0] == 'p',
        "q"@.len() == 1,
        "q"@[0] == 'q',
        "r"@.len() == 1,
        "r"@[0] == 'r',
        "t"@.len() == 1,
        "t"@[0] == 't',
        "u"@.len() == 1,
        "u"@[0] == 'u',
        "v"@.len() == 1,
        "v"@[0] == 'v',
        "y"@.len() == 1,
        "y"@[0] == 'y',
        "w"@.len() == 1,
        "w"@[0] == 'w',
        "z"@.len() == 1,
        "z"@[0] == 'z',
        "arrowup"@.len() == 7,
        "arrowup"@[0] == 'a',
        "arrowup"@[1] == 'r',
        "arrowup"@[2] == 'r',
        "arrowup"@[3] == 'o',
        "arrowup"@[4] == 'w',
        "arrowup"@[5] == 'u',
        "arrowup"@[6] == 'p',
        "arrowdown"@.len() == 9,
        "arrowdown"@[0] == 'a',
        "arrowdown"@[1] == 'r',
        "arrowdown"@[2] == 'r',
        "arrowdown"@[3] == 'o',
        "arrowdown"@[4] == 'w',
        "arrowdown"@[5] == 'd',
        "arrowdown"@[6] == 'o',
        "arrowdown"@[7] == 'w',
        "arrowdown"@[8] == 'n',
        "arrowright"@.len() == 10,
        "arrowright"@[0] == 'a',
        "arrowright"@[1] == 'r',
        "arrowright"@[2] == 'r',
        "arrowright"@[3] == 'o',
        "arrowright"@[4] == 'w',
        "arrowright"@[5] == 'r',
        "arrowright"@[6] == 'i',
        "arrowright"@[7] == 'g',
        "arrowright"@[8] == 'h',
        "arrowright"@[9] == 't',
        "arrowleft"@.len() == 9,
        "arrowleft"@[0] == 'a',
        "arrowleft"@[1] == 'r',
        "arrowleft"@[2] == 'r',
        "arrowleft"@[3] == 'o',
        "arrowleft"@[4] == 'w',
        "arrowleft"@[5] == 'l',
        "arrowleft"@[6] == 'e',
        "arrowleft"@[7] == 'f',
        "arrowleft"@[8] == 't',
        "`"@.len() == 1,
        "`"@[0] == '`',
        "["@.len() == 1,
        "["@[0] == '[',
        "]"@.len() == 1,
        "]"@[0] == ']',
        ","@.len() == 1,
        ","@[0] == ',',
        "="@.len() == 1,
        "="@[0] == '=',
        "-"@.len() == 1,
        "-"@[0] == '-',
        "."@.len() == 1,
        "."@[0] == '.',
        "'"@.len() == 1,
        "'"@[0] == '\'',
        ";"@.len() == 1,
        ";"@[0] == ';',
        "/"@.len() == 1,
        "/"@[0] == '/',
        "?"@.len() == 1,
        "?"@[0] == '?',
        "|"@.len() == 1,
        "|"@[0] == '|',
        "backspace"@.len() == 9,
        "backspace"@[0] == 'b',
        "backspace"@[1] == 'a',
        "backspace"@[2] == 'c',
        "backspace"@[3] == 'k',
        "backspace"@[4] == 's',
        "backspace"@[5] == 'p',
        "backspace"@[6] == 'a',
        "backspace"@[7] == 'c',
        "backspace"@[8] == 'e',
        "enter"@.len() == 5,
        "enter"@[0] == 'e',
        "enter"@[1] == 'n',
        "enter"@[2] == 't',
        "enter"@[3] == 'e',
        "enter"@[4] == 'r',
        "space"@.len() == 5,
        "space"@[0] == 's',
        "space"@[1] == 'p',
        "space"@[2] == 'a',
        "space"@[3] == 'c',
        "space"@[4] == 'e',
        "tab"@.len() == 3,
        "tab"@[0] == 't',
        "tab"@[1] == 'a',
        "tab"@[2] == 'b',
        "delete"@.len() == 6,
        "delete"@[0] == 'd',
        "delete"@[1] == 'e',
        "delete"@[2] == 'l',
        "delete"@[3] == 'e',
        "delete"@[4] == 't',
        "delete"@[5] == 'e',
        "end"@.len() == 3,
        "end"@[0] == 'e',
        "end"@[1] == 'n',
        "end"@[2] == 'd',
        "home"@.len() == 4,
        "home"@[0] == 'h',
        "home"@[1] == 'o',
        "home"@[2] == 'm',
        "home"@[3] == 'e',
        "insert"@.len() == 6,
        "insert"@[0] == 'i',
        "insert"@[1] == 'n',
        "insert"@[2] == 's',
        "insert"@[3] == 'e',
        "insert"@[4] == 'r',
        "insert"@[5] == 't',
        "pagedown"@.len() == 8,
        "pagedown"@[0] == 'p',
        "pagedown"@[1] == 'a',
        "pagedown"@[2] == 'g',
        "pagedown"@[3] == 'e',
        "pagedown"@[4] == 'd',
        "pagedown"@[5] == 'o',
        "pagedown"@[6] == 'w',
        "pagedown"@[7] == 'n',
        "pageup"@.len() == 6,
        "pageup"@[0] == 'p',
        "pageup"@[1] == 'a',
        "pageup"@[2] == 'g',
        "pageup"@[3] == 'e',
        "pageup"@[4] == 'u',
        "pageup"@[5] == 'p',
        "escape"@.len() == 6,
        "escape"@[0] == 'e',
        "escape"@[1] == 's',
        "escape"@[2] == 'c',
        "escape"@[3] == 'a',
        "escape"@[4] == 'p',
        "escape"@[5] == 'e',
        "0"@.len() == 1,
        "0"@[0] == '0',
        "1"@.len() == 1,
        "1"@[0] == '1',
        "2"@.len() == 1,
        "2"@[0] == '2',
        "3"@.len() == 1,
        "3"@[0] == '3',
        "4"@.len() == 1,
        "4"@[0] == '4',
        "5"@.len() == 1,
        "5"@[0] == '5',
        "6"@.len() == 1,
        "6"@[0] == '6',
        "7"@.len() == 1,
        "7"@[0] == '7',
        "8"@.len() == 1,
        "8"@[0] == '8',
        "9"@.len() == 1,
        "9"@[0] == '9',
        "f1"@.len() == 2,
        "f1"@[0] == 'f',
        "f1"@[1] == '1',
        "f2"@.len() == 2,
        "f2"@[0] == 'f',
        "f2"@[1] == '2',
        "f3"@.len() == 2,
        "f3"@[0] == 'f',
        "f3"@[1] == '3',
        "f4"@.len() == 2,
        "f4"@[0] == 'f',
        "f4"@[1] == '4',
        "f5"@.len() == 2,
        "f5"@[0] == 'f',
        "f5"@[1] == '5',
        "f6"@.len() == 2,
        "f6"@[0] == 'f',
        "f6"@[1] == '6',
        "f7"@.len() == 2,
        "f7"@[0] == 'f',
        "f7"@[1] == '7',
        "f8"@.len() == 2,
        "f8"@[0] == 'f',
        "f8"@[1] == '8',
        "f9"@.len() == 2,
        "f9"@[0] == 'f',
        "f9"@[1] == '9',
        "f10"@.len() == 3,
        "f10"@[0] == 'f',
        "f10"@[1] == '1',
        "f10"@[2] == '0',
        "f11"@.len() == 3,
        "f11"@[0] == 'f',
        "f11"@[1] == '1',
        "f11"@[2] == '1',
        "f12"@.len() == 3,
        "f12"@[0] == 'f',
        "f12"@[1] == '1',
        "f12"@[2] == '2',
        "f13"@.len() == 3,
        "f13"@[0] == 'f',
        "f13"@[1] == '1',
        "f13"@[2] == '3',
        "f14"@.len() == 3,
        "f14"@[0] == 'f',
        "f14"@[1] == '1',
        "f14"@[2] == '4',
        "f15"@.len() == 3,
        "f15"@[0] == 'f',
        "f15"@[1] == '1',
        "f15"@[2] == '5',
        "f16"@.len() == 3,
        "f16"@[0] == 'f',
        "f16"@[1] == '1',
        "f16"@[2] == '6',
        "f17"@.len() == 3,
        "f17"@[0] == 'f',
        "f17"@[1] == '1',
        "f17"@[2] == '7',
        "f18"@.len() == 3,
        "f18"@[0] == 'f',
        "f18"@[1] == '1',
        "f18"@[2] == '8',
        "f19"@.len() == 3,
        "f19"@[0] == 'f',
        "f19"@[1] == '1',
        "f19"@[2] == '9',
        "f20"@.len() == 3,
        "f20"@[0] == 'f',
        "f20"@[1] == '2',
        "f20"@[2] == '0',
        "f21"@.len() == 3,
        "f21"@[0] == 'f',
        "f21"@[1] == '2',
        "f21"@[2] == '1',
        "f22"@.len() == 3,
        "f22"@[0] == 'f',
        "f22"@[1] == '2',
        "f22"@[2] == '2',
        "f23"@.len() == 3,
        "f23"@[0] == 'f',
        "f23"@[1] == '2',
        "f23"@[2] == '3',
        "f24"@.len() == 3,
        "f24"@[0] == 'f',
        "f24"@[1] == '2',
        "f24"@[2] == '4',
        "f25"@.len() == 3,
        "f25"@[0] == 'f',
        "f25"@[1] == '2',
        "f25"@[2] == '5',
        "f26"@.len() == 3,
        "f26"@[0] == 'f',
        "f26"@[1] == '2',
        "f26"@[2] == '6',
        "f27"@.len() == 3,
        "f27"@[0] == 'f',
        "f27"@[1] == '2',
        "f27"@[2] == '7',
        "f28"@.len() == 3,
        "f28"@[0] == 'f',
        "f28"@[1] == '2',
        "f28"@[2] == '8',
        "f29"@.len() == 3,
        "f29"@[0] == 'f',
        "f29"@[1] == '2',
        "f29"@[2] == '9',
        "f30"@.len() == 3,
        "f30"@[0] == 'f',
        "f30"@[1] == '3',
        "f30"@[2] == '0',
        "f31"@.len() == 3,
        "f31"@[0] == 'f',
        "f31"@[1] == '3',
        "f31"@[2] == '1',
        "f32"@.len() == 3,
        "f32"@[0] == 'f',
        "f32"@[1] == '3',
        "f32"@[2] == '2',
        "f33"@.len() == 3,
        "f33"@[0] == 'f',
        "f33"@[1] == '3',
        "f33"@[2] == '3',
        "f34"@.len() == 3,
        "f34"@[0] == 'f',
        "f34"@[1] == '3',
        "f34"@[2] == '4',
        "f35"@.len() == 3,
        "f35"@[0] == 'f',
        "f35"@[1] == '3',
        "f35"@[2] == '5',
{
    reveal_strlit("a");
    reveal_strlit("b");
    reveal_strlit("c");
    reveal_strlit("d");
    reveal_strlit("e");
    reveal_strlit("f");
    reveal_strlit("g");
    reveal_strlit("h");
    reveal_strlit("i");
    reveal_strlit("j");
    reveal_strlit("k");
    reveal_strlit("l");
    reveal_strlit("m");
    reveal_strlit("n");
    reveal_strlit("o");
    reveal_strlit("p");
    reveal_strlit("q");
    reveal_strlit("r");
    reveal_strlit("t");
    reveal_strlit("u");
    reveal_strlit("v");
    reveal_strlit("y");
    reveal_strlit("w");
    reveal_strlit("z");
    reveal_strlit("arrowup");
    reveal_strlit("arrowdown");
    reveal_strlit("arrowright");
    reveal_strlit("arrowleft");
    reveal_strlit("`");
    reveal_strlit("[");
    reveal_strlit("]");
    reveal_strlit(",");
    reveal_strlit("=");
    reveal_strlit("-");
    reveal_strlit(".");
    reveal_strlit("'");
    reveal_strlit(";");
    reveal_strlit("/");
    reveal_strlit("?");
    reveal_strlit("|");
    reveal_strlit("backspace");
    reveal_strlit("enter");
    reveal_strlit("space");
    reveal_strlit("tab");
    reveal_strlit("delete");
    reveal_strlit("end");
    reveal_strlit("home");
    reveal_strlit("insert");
    reveal_strlit("pagedown");
    reveal_strlit("pageup");
    reveal_strlit("escape");
    reveal_strlit("0");
    reveal_strlit("1");
    reveal_strlit("2");
    reveal_strlit("3");
    reveal_strlit("4");
    reveal_strlit("5");
    reveal_strlit("6");
    reveal_strlit("7");
    reveal_strlit("8");
    reveal_strlit("9");
    reveal_strlit("f1");
    reveal_strlit("f2");
    reveal_strlit("f3");
    reveal_strlit("f4");
    reveal_strlit("f5");
    reveal_strlit("f6");
    reveal_strlit("f7");
    reveal_strlit("f8");
    reveal_strlit("f9");
    reveal_strlit("f10");
    reveal_strlit("f11");
    reveal_strlit("f12");
    reveal_strlit("f13");
    reveal_strlit("f14");
    reveal_strlit("f15");
    reveal_strlit("f16");
    reveal_strlit("f17");
    reveal_strlit("f18");
    reveal_strlit("f19");
    reveal_strlit("f20");
    reveal_strlit("f21");
    reveal_strlit("f22");
    reveal_strlit("f23");
    reveal_strlit("f24");
    reveal_strlit("f25");
    reveal_strlit("f26");
    reveal_strlit("f27");
    reveal_strlit("f28");
    reveal_strlit("f29");
    reveal_strlit("f30");
    reveal_strlit("f31");
    reveal_strlit("f32");
    reveal_strlit("f33");
    reveal_strlit("f34");
    reveal_strlit("f35");
}

/// The letters of each known extension.
proof fn lemma_extension_letters()
    ensures
        "png"@.len() == 3,
        "png"@[0] == 'p',
        "png"@[1] == 'n',
        "png"@[2] == 'g',
        "jpg"@.len() == 3,
        "jpg"@[0] == 'j',
        "jpg"@[1] == 'p',
        "jpg"@[2] == 'g',
        "jpeg"@.len() == 4,
        "jpeg"@[0] == 'j',
        "jpeg"@[1] == 'p',
        "jpeg"@[2] == 'e',
        "jpeg"@[3] == 'g',
        "webp"@.len() == 4,
        "webp"@[0] == 'w',
        "webp"@[1] == 'e',
        "webp"@[2] == 'b',
        "webp"@[3] == 'p',
        "avif"@.len() == 4,
        "avif"@[0] == 'a',
        "avif"@[1] == 'v',
        "avif"@[2] == 'i',
        "avif"@[3] == 'f',
        "gif"@.len() == 3,
        "gif"@[0] == 'g',
        "gif"@[1] == 'i',
        "gif"@[2] == 'f',
        "svg"@.len() == 3,
        "svg"@[0] == 's',
        "svg"@[1] == 'v',
        "svg"@[2] == 'g',
        "ase"@.len() == 3,
        "ase"@[0] == 'a',
        "ase"@[1] == 's',
        "ase"@[2] == 'e',
        "aseprite"@.len() == 8,
        "aseprite"@[0] == 'a',
        "aseprite"@[1] == 's',
        "aseprite"@[2] == 'e',
        "aseprite"@[3] == 'p',
        "aseprite"@[4] == 'r',
        "aseprite"@[5] == 'i',
        "aseprite"@[6] == 't',
        "aseprite"@[7] == 'e',
        "xcf"@.len() == 3,
        "xcf"@[0] == 'x',
        "xcf"@[1] == 'c',
        "xcf"@[2] == 'f',
        "mp4"@.len() == 3,
        "mp4"@[0] == 'm',
        "mp4"@[1] == 'p',
        "mp4"@[2] == '4',
        "avi"@.len() == 3,
        "avi"@[0] == 'a',
        "avi"@[1] == 'v',
        "avi"@[2] == 'i',
        "mov"@.len() == 3,
        "mov"@[0] == 'm',
        "mov"@[1] == 'o',
        "mov"@[2] == 'v',
        "wmv"@.len() == 3,
        "wmv"@[0] == 'w',
        "wmv"@[1] == 'm',
        "wmv"@[2] == 'v',
        "mkv"@.len() == 3,
        "mkv"@[0] == 'm',
        "mkv"@[1] == 'k',
        "mkv"@[2] == 'v',
        "m4v"@.len() == 3,
        "m4v"@[0] == 'm',
        "m4v"@[1] == '4',
        "m4v"@[2] == 'v',
        "mp3"@.len() == 3,
        "mp3"@[0] == 'm',
        "mp3"@[1] == 'p',
        "mp3"@[2] == '3',
        "opus"@.len() == 4,
        "opus"@[0] == 'o',
        "opus"@[1] == 'p',
        "opus"@[2] == 'u',
        "opus"@[3] == 's',
        "flac"@.len() == 4,
        "flac"@[0] == 'f',
        "flac"@[1] == 'l',
        "flac"@[2] == 'a',
        "flac"@[3] == 'c',
        "wav"@.len() == 3,
        "wav"@[0] == 'w',
        "wav"@[1] == 'a',
        "wav"@[2] == 'v',
        "aiff"@.len() == 4,
        "aiff"@[0] == 'a',
        "aiff"@[1] == 'i',
        "aiff"@[2] == 'f',
        "aiff"@[3] == 'f',
        "ogg"@.len() == 3,
        "ogg"@[0] == 'o',
        "ogg"@[1] == 'g',
        "ogg"@[2] == 'g',
        "rs"@.len() == 2,
        "rs"@[0] == 'r',
        "rs"@[1] == 's',
        "py"@.len() == 2,
        "py"@[0] == 'p',
        "py"@[1] == 'y',
        "c"@.len() == 1,
        "c"@[0] == 'c',
        "cpp"@.len() == 3,
        "cpp"@[0] == 'c',
        "cpp"@[1] == 'p',
        "cpp"@[2] == 'p',
        "jar"@.len() == 3,
        "jar"@[0] == 'j',
        "jar"@[1] == 'a',
        "jar"@[2] == 'r',
        "java"@.len() == 4,
        "java"@[0] == 'j',
        "java"@[1] == 'a',
        "java"@[2] == 'v',
        "java"@[3] == 'a',
        "js"@.len() == 2,
        "js"@[0] == 'j',
        "js"@[1] == 's',
        "ts"@.len() == 2,
        "ts"@[0] == 't',
        "ts"@[1] == 's',
        "go"@.len() == 2,
        "go"@[0] == 'g',
        "go"@[1] == 'o',
        "tsx"@.len() == 3,
        "tsx"@[0] == 't',
        "tsx"@[1] == 's',
        "tsx"@[2] == 'x',
        "jsx"@.len() == 3,
        "jsx"@[0] == 'j',
        "jsx"@[1] == 's',
        "jsx"@[2] == 'x',
        "txt"@.len() == 3,
        "txt"@[0] == 't',
        "txt"@[1] == 'x',
        "txt"@[2] == 't',
        "cs"@.len() == 2,
        "cs"@[0] == 'c',
        "cs"@[1] == 's',
        "csx"@.len() == 3,
        "csx"@[0] == 'c',
        "csx"@[1] == 's',
        "csx"@[2] == 'x',
        "asm"@.len() == 3,
        "asm"@[0] == 'a',
        "asm"@[1] == 's',
        "asm"@[2] == 'm',
        "md"@.len() == 2,
        "md"@[0] == 'm',
        "md"@[1] == 'd',
        "css"@.len() == 3,
        "css"@[0] == 'c',
        "css"@[1] == 's',
        "css"@[2] == 's',
        "toml"@.len() == 4,
        "toml"@[0] == 't',
        "toml"@[1] == 'o',
        "toml"@[2] == 'm',
        "toml"@[3] == 'l',
        "vue"@.len() == 3,
        "vue"@[0] == 'v',
        "vue"@[1] == 'u',
        "vue"@[2] == 'e',
        "sh"@.len() == 2,
        "sh"@[0] == 's',
        "sh"@[1] == 'h',
        "bat"@.len() == 3,
        "bat"@[0] == 'b',
        "bat"@[1] == 'a',
        "bat"@[2] == 't',
        "json"@.len() == 4,
        "json"@[0] == 'j',
        "json"@[1] == 's',
        "json"@[2] == 'o',
        "json"@[3] == 'n',
        "html"@.len() == 4,
        "html"@[0] == 'h',
        "html"@[1] == 't',
        "html"@[2] == 'm',
        "html"@[3] == 'l',
        "7z"@.len() == 2,
        "7z"@[0] == '7',
        "7z"@[1] == 'z',
        "zip"@.len() == 3,
        "zip"@[0] == 'z',
        "zip"@[1] == 'i',
        "zip"@[2] == 'p',
        "rar"@.len() == 3,
        "rar"@[0] == 'r',
        "rar"@[1] == 'a',
        "rar"@[2] == 'r',
        "dmg"@.len() == 3,
        "dmg"@[0] == 'd',
        "dmg"@[1] == 'm',
        "dmg"@[2] == 'g',
        "apk"@.len() == 3,
        "apk"@[0] == 'a',
        "apk"@[1] == 'p',
        "apk"@[2] == 'k',
        "db"@.len() == 2,
        "db"@[0] == 'd',
        "db"@[1] == 'b',
        "sqlite"@.len() == 6,
        "sqlite"@[0] == 's',
        "sqlite"@[1] == 'q',
        "sqlite"@[2] == 'l',
        "sqlite"@[3] == 'i',
        "sqlite"@[4] == 't',
        "sqlite"@[5] == 'e',
        "sqlite3"@.len() == 7,
        "sqlite3"@[0] == 's',
        "sqlite3"@[1] == 'q',
        "sqlite3"@[2] == 'l',
        "sqlite3"@[3] == 'i',
        "sqlite3"@[4] == 't',
        "sqlite3"@[5] == 'e',
        "sqlite3"@[6] == '3',
        "sqlite-wal"@.len() == 10,
        "sqlite-wal"@[0] == 's',
        "sqlite-wal"@[1] == 'q',
        "sqlite-wal"@[2] == 'l',
        "sqlite-wal"@[3] == 'i',
        "sqlite-wal"@[4] == 't',
        "sqlite-wal"@[5] == 'e',
        "sqlite-wal"@[6] == '-',
        "sqlite-wal"@[7] == 'w',
        "sqlite-wal"@[8] == 'a',
        "sqlite-wal"@[9] == 'l',
        "blend"@.len() == 5,
        "blend"@[0] == 'b',
        "blend"@[1] == 'l',
        "blend"@[2] == 'e',
        "blend"@[3] == 'n',
        "blend"@[4] == 'd',
        "bin"@.len() == 3,
        "bin"@[0] == 'b',
        "bin"@[1] == 'i',
        "bin"@[2] == 'n',
        "blend1"@.len() == 6,
        "blend1"@[0] == 'b',
        "blend1"@[1] == 'l',
        "blend1"@[2] == 'e',
        "blend1"@[3] == 'n',
        "blend1"@[4] == 'd',
        "blend1"@[5] == '1',
        "dll"@.len() == 3,
        "dll"@[0] == 'd',
        "dll"@[1] == 'l',
        "dll"@[2] == 'l',
{
    reveal_strlit("png");
    reveal_strlit("jpg");
    reveal_strlit("jpeg");
    reveal_strlit("webp");
    reveal_strlit("avif");
    reveal_strlit("gif");
    reveal_strlit("svg");
    reveal_strlit("ase");
    reveal_strlit("aseprite");
    reveal_strlit("xcf");
    reveal_strlit("mp4");
    reveal_strlit("avi");
    reveal_strlit("mov");
    reveal_strlit("wmv");
    reveal_strlit("mkv");
    reveal_strlit("m4v");
    reveal_strlit("mp3");
    reveal_strlit("opus");
    reveal_strlit("flac");
    reveal_strlit("wav");
    reveal_strlit("aiff");
    reveal_strlit("ogg");
    reveal_strlit("rs");
    reveal_strlit("py");
    reveal_strlit("c");
    reveal_strlit("cpp");
    reveal_strlit("jar");
    reveal_strlit("java");
    reveal_strlit("js");
    reveal_strlit("ts");
    reveal_strlit("go");
    reveal_strlit("tsx");
    reveal_strlit("jsx");
    reveal_strlit("txt");
    reveal_strlit("cs");
    reveal_strlit("csx");
    reveal_strlit("asm");
    reveal_strlit("md");
    reveal_strlit("css");
    reveal_strlit("toml");
    reveal_strlit("vue");
    reveal_strlit("sh");
    reveal_strlit("bat");
    reveal_strlit("json");
    reveal_strlit("html");
    reveal_strlit("7z");
    reveal_strlit("zip");
    reveal_strlit("rar");
    reveal_strlit("dmg");
    reveal_strlit("apk");
    reveal_strlit("db");
    reveal_strlit("sqlite");
    reveal_strlit("sqlite3");
    reveal_strlit("sqlite-wal");
    reveal_strlit("blend");
    reveal_strlit("bin");
    reveal_strlit("blend1");
    reveal_strlit("dll");
}

} // verus!
