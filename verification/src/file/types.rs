//! File types known by their extension.

use crate::file::icons::IconKind;
use crate::text;
use vstd::prelude::*;

verus! {

/// The description and icon of the files with extension `extension`, for the extensions the
/// explorer knows.
#[verifier::opaque]
pub open spec fn spec_extension_to_file_type(extension: Seq<char>) -> Option<(&'static str, IconKind)> {
    if extension == "png"@ {
        Some(("PNG Image", IconKind::Image))
    } else if extension == "jpg"@ {
        Some(("JPEG Image", IconKind::Image))
    } else if extension == "jpeg"@ {
        Some(("JPEG Image", IconKind::Image))
    } else if extension == "webp"@ {
        Some(("WEBP Image", IconKind::Image))
    } else if extension == "avif"@ {
        Some(("AVIF Image", IconKind::Image))
    } else if extension == "gif"@ {
        Some(("GIF Animated Image", IconKind::Image))
    } else if extension == "svg"@ {
        Some(("SVG Image", IconKind::Image))
    } else if extension == "ase"@ {
        Some(("Aseprite Sprite", IconKind::Painting))
    } else if extension == "aseprite"@ {
        Some(("Aseprite Sprite", IconKind::Painting))
    } else if extension == "xcf"@ {
        Some(("GIMP Raw Image", IconKind::Image))
    } else if extension == "mp4"@ {
        Some(("MP4 Video", IconKind::Video))
    } else if extension == "avi"@ {
        Some(("AVI Video", IconKind::Video))
    } else if extension == "mov"@ {
        Some(("MOV Video", IconKind::Video))
    } else if extension == "wmv"@ {
        Some(("WMV Video", IconKind::Video))
    } else if extension == "mkv"@ {
        Some(("MKV Video", IconKind::Video))
    } else if extension == "m4v"@ {
        Some(("M4V Video", IconKind::Video))
    } else if extension == "mp3"@ {
        Some(("MP3 Audio", IconKind::Audio))
    } else if extension == "opus"@ {
        Some(("OPUS Audio", IconKind::Audio))
    } else if extension == "flac"@ {
        Some(("FLAC Audio", IconKind::Audio))
    } else if extension == "wav"@ {
        Some(("WAV Audio", IconKind::Audio))
    } else if extension == "aiff"@ {
        Some(("AIFF Audio", IconKind::Audio))
    } else if extension == "ogg"@ {
        Some(("OGG Audio", IconKind::Audio))
    } else if extension == "rs"@ {
        Some(("Rust Source File", IconKind::RustSrc))
    } else if extension == "py"@ {
        Some(("Python Source File", IconKind::PySrc))
    } else if extension == "c"@ {
        Some(("C Source File", IconKind::CSrc))
    } else if extension == "cpp"@ {
        Some(("C++ Source File", IconKind::CppSrc))
    } else if extension == "jar"@ {
        Some(("Java Source File", IconKind::JavaSrc))
    } else if extension == "java"@ {
        Some(("Java Source File", IconKind::JavaSrc))
    } else if extension == "js"@ {
        Some(("JavaScript Source File", IconKind::JsSrc))
    } else if extension == "ts"@ {
        Some(("TypeScript Source File", IconKind::TsSrc))
    } else if extension == "go"@ {
        Some(("Golang Source File", IconKind::Src))
    } else if extension == "tsx"@ {
        Some(("React Source File", IconKind::TsxSrc))
    } else if extension == "jsx"@ {
        Some(("React Source File", IconKind::JsxSrc))
    } else if extension == "txt"@ {
        Some(("Text File", IconKind::Src))
    } else if extension == "cs"@ {
        Some(("C# Source File", IconKind::CsSrc))
    } else if extension == "csx"@ {
        Some(("C# Source File", IconKind::CsSrc))
    } else if extension == "asm"@ {
        Some(("Assembly Source File", IconKind::Src))
    } else if extension == "md"@ {
        Some(("Markdown Document", IconKind::MdSrc))
    } else if extension == "css"@ {
        Some(("Cascading Stylesheets", IconKind::CssSrc))
    } else if extension == "toml"@ {
        Some(("TOML Document", IconKind::Src))
    } else if extension == "vue"@ {
        Some(("VUE Source File", IconKind::VueSrc))
    } else if extension == "sh"@ {
        Some(("Shell Script", IconKind::Script))
    } else if extension == "bat"@ {
        Some(("Batch Script", IconKind::Script))
    } else if extension == "json"@ {
        Some(("JavaScript Object Notation", IconKind::Src))
    } else if extension == "html"@ {
        Some(("HTML", IconKind::HtmlSrc))
    } else if extension == "7z"@ {
        Some(("7-Zip Archive", IconKind::Archive))
    } else if extension == "zip"@ {
        Some(("ZIP Archive", IconKind::Archive))
    } else if extension == "rar"@ {
        Some(("RAR Archive", IconKind::Archive))
    } else if extension == "dmg"@ {
        Some(("Apple Disk Image", IconKind::Archive))
    } else if extension == "apk"@ {
        Some(("Android Application Package", IconKind::Archive))
    } else if extension == "db"@ {
        Some(("Database", IconKind::Database))
    } else if extension == "sqlite"@ {
        Some(("SQL Database", IconKind::Sqlite))
    } else if extension == "sqlite3"@ {
        Some(("SQL Database", IconKind::Sqlite))
    } else if extension == "sqlite-wal"@ {
        Some(("SQL Database", IconKind::Sqlite))
    } else if extension == "blend"@ {
        Some(("Blender Model", IconKind::Cube))
    } else if extension == "bin"@ {
        Some(("Binary File", IconKind::File))
    } else if extension == "blend1"@ {
        Some(("Blender Backup Model", IconKind::Cube))
    } else if extension == "dll"@ {
        Some(("Dynamic-Link Library", IconKind::Link))
    } else {
        None
    }
}

/// Looks up the description and icon of an extension.
pub fn extension_to_file_type(extension: &str) -> (res: Option<(&'static str, IconKind)>)
    ensures
        res == spec_extension_to_file_type(extension@),
{
    reveal(spec_extension_to_file_type);
    if text::str_eq(extension, "png") {
        Some(("PNG Image", IconKind::Image))
    } else if text::str_eq(extension, "jpg") {
        Some(("JPEG Image", IconKind::Image))
    } else if text::str_eq(extension, "jpeg") {
        Some(("JPEG Image", IconKind::Image))
    } else if text::str_eq(extension, "webp") {
        Some(("WEBP Image", IconKind::Image))
    } else if text::str_eq(extension, "avif") {
        Some(("AVIF Image", IconKind::Image))
    } else if text::str_eq(extension, "gif") {
        Some(("GIF Animated Image", IconKind::Image))
    } else if text::str_eq(extension, "svg") {
        Some(("SVG Image", IconKind::Image))
    } else if text::str_eq(extension, "ase") {
        Some(("Aseprite Sprite", IconKind::Painting))
    } else if text::str_eq(extension, "aseprite") {
        Some(("Aseprite Sprite", IconKind::Painting))
    } else if text::str_eq(extension, "xcf") {
        Some(("GIMP Raw Image", IconKind::Image))
    } else if text::str_eq(extension, "mp4") {
        Some(("MP4 Video", IconKind::Video))
    } else if text::str_eq(extension, "avi") {
        Some(("AVI Video", IconKind::Video))
    } else if text::str_eq(extension, "mov") {
        Some(("MOV Video", IconKind::Video))
    } else if text::str_eq(extension, "wmv") {
        Some(("WMV Video", IconKind::Video))
    } else if text::str_eq(extension, "mkv") {
        Some(("MKV Video", IconKind::Video))
    } else if text::str_eq(extension, "m4v") {
        Some(("M4V Video", IconKind::Video))
    } else if text::str_eq(extension, "mp3") {
        Some(("MP3 Audio", IconKind::Audio))
    } else if text::str_eq(extension, "opus") {
        Some(("OPUS Audio", IconKind::Audio))
    } else if text::str_eq(extension, "flac") {
        Some(("FLAC Audio", IconKind::Audio))
    } else if text::str_eq(extension, "wav") {
        Some(("WAV Audio", IconKind::Audio))
    } else if text::str_eq(extension, "aiff") {
        Some(("AIFF Audio", IconKind::Audio))
    } else if text::str_eq(extension, "ogg") {
        Some(("OGG Audio", IconKind::Audio))
    } else if text::str_eq(extension, "rs") {
        Some(("Rust Source File", IconKind::RustSrc))
    } else if text::str_eq(extension, "py") {
        Some(("Python Source File", IconKind::PySrc))
    } else if text::str_eq(extension, "c") {
        Some(("C Source File", IconKind::CSrc))
    } else if text::str_eq(extension, "cpp") {
        Some(("C++ Source File", IconKind::CppSrc))
    } else if text::str_eq(extension, "jar") {
        Some(("Java Source File", IconKind::JavaSrc))
    } else if text::str_eq(extension, "java") {
        Some(("Java Source File", IconKind::JavaSrc))
    } else if text::str_eq(extension, "js") {
        Some(("JavaScript Source File", IconKind::JsSrc))
    } else if text::str_eq(extension, "ts") {
        Some(("TypeScript Source File", IconKind::TsSrc))
    } else if text::str_eq(extension, "go") {
        Some(("Golang Source File", IconKind::Src))
    } else if text::str_eq(extension, "tsx") {
        Some(("React Source File", IconKind::TsxSrc))
    } else if text::str_eq(extension, "jsx") {
        Some(("React Source File", IconKind::JsxSrc))
    } else if text::str_eq(extension, "txt") {
        Some(("Text File", IconKind::Src))
    } else if text::str_eq(extension, "cs") {
        Some(("C# Source File", IconKind::CsSrc))
    } else if text::str_eq(extension, "csx") {
        Some(("C# Source File", IconKind::CsSrc))
    } else if text::str_eq(extension, "asm") {
        Some(("Assembly Source File", IconKind::Src))
    } else if text::str_eq(extension, "md") {
        Some(("Markdown Document", IconKind::MdSrc))
    } else if text::str_eq(extension, "css") {
        Some(("Cascading Stylesheets", IconKind::CssSrc))
    } else if text::str_eq(extension, "toml") {
        Some(("TOML Document", IconKind::Src))
    } else if text::str_eq(extension, "vue") {
        Some(("VUE Source File", IconKind::VueSrc))
    } else if text::str_eq(extension, "sh") {
        Some(("Shell Script", IconKind::Script))
    } else if text::str_eq(extension, "bat") {
        Some(("Batch Script", IconKind::Script))
    } else if text::str_eq(extension, "json") {
        Some(("JavaScript Object Notation", IconKind::Src))
    } else if text::str_eq(extension, "html") {
        Some(("HTML", IconKind::HtmlSrc))
    } else if text::str_eq(extension, "7z") {
        Some(("7-Zip Archive", IconKind::Archive))
    } else if text::str_eq(extension, "zip") {
        Some(("ZIP Archive", IconKind::Archive))
    } else if text::str_eq(extension, "rar") {
        Some(("RAR Archive", IconKind::Archive))
    } else if text::str_eq(extension, "dmg") {
        Some(("Apple Disk Image", IconKind::Archive))
    } else if text::str_eq(extension, "apk") {
        Some(("Android Application Package", IconKind::Archive))
    } else if text::str_eq(extension, "db") {
        Some(("Database", IconKind::Database))
    } else if text::str_eq(extension, "sqlite") {
        Some(("SQL Database", IconKind::Sqlite))
    } else if text::str_eq(extension, "sqlite3") {
        Some(("SQL Database", IconKind::Sqlite))
    } else if text::str_eq(extension, "sqlite-wal") {
        Some(("SQL Database", IconKind::Sqlite))
    } else if text::str_eq(extension, "blend") {
        Some(("Blender Model", IconKind::Cube))
    } else if text::str_eq(extension, "bin") {
        Some(("Binary File", IconKind::File))
    } else if text::str_eq(extension, "blend1") {
        Some(("Blender Backup Model", IconKind::Cube))
    } else if text::str_eq(extension, "dll") {
        Some(("Dynamic-Link Library", IconKind::Link))
    } else {
        None
    }
}

} // verus!
