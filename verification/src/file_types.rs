//! File type descriptions by extension.

use crate::text;
use vstd::prelude::*;

verus! {

/// The description of the files with extension `extension`, for the extensions known here.
#[verifier::opaque]
pub open spec fn spec_extension_to_file_type(extension: Seq<char>) -> Option<&'static str> {
    if extension == "png"@ {
        Some("PNG Image")
    } else if extension == "jpg"@ {
        Some("JPEG Image")
    } else if extension == "jpeg"@ {
        Some("JPEG Image")
    } else if extension == "webp"@ {
        Some("WEBP Image")
    } else if extension == "avif"@ {
        Some("AVIF Image")
    } else if extension == "gif"@ {
        Some("GIF Animated Image")
    } else if extension == "svg"@ {
        Some("SVG Image")
    } else if extension == "ase"@ {
        Some("Aseprite Sprite")
    } else if extension == "aseprite"@ {
        Some("Aseprite Sprite")
    } else if extension == "xcf"@ {
        Some("GIMP Raw Image")
    } else if extension == "mp4"@ {
        Some("MP4 Video")
    } else if extension == "avi"@ {
        Some("AVI Video")
    } else if extension == "mov"@ {
        Some("MOV Video")
    } else if extension == "wmv"@ {
        Some("WMV Video")
    } else if extension == "mkv"@ {
        Some("MKV Video")
    } else if extension == "m4v"@ {
        Some("M4V Video")
    } else if extension == "mp3"@ {
        Some("MP3 Audio")
    } else if extension == "opus"@ {
        Some("OPUS Audio")
    } else if extension == "flac"@ {
        Some("FLAC Audio")
    } else if extension == "wav"@ {
        Some("WAV Audio")
    } else if extension == "aiff"@ {
        Some("AIFF Audio")
    } else if extension == "ogg"@ {
        Some("OGG Audio")
    } else if extension == "rs"@ {
        Some("Rust Source File")
    } else if extension == "py"@ {
        Some("Python Source File")
    } else if extension == "c"@ {
        Some("C Source File")
    } else if extension == "cpp"@ {
        Some("C++ Source File")
    } else if extension == "jar"@ {
        Some("Java Source File")
    } else if extension == "java"@ {
        Some("Java Source File")
    } else if extension == "js"@ {
        Some("JavaScript Source File")
    } else if extension == "ts"@ {
        Some("TypeScript Source File")
    } else if extension == "go"@ {
        Some("Golang Source File")
    } else if extension == "tsx"@ {
        Some("React Source File")
    } else if extension == "jsx"@ {
        Some("React Source File")
    } else if extension == "txt"@ {
        Some("Text File")
    } else if extension == "cs"@ {
        Some("C# Source File")
    } else if extension == "csx"@ {
        Some("C# Source File")
    } else if extension == "asm"@ {
        Some("Assembly Source File")
    } else if extension == "md"@ {
        Some("Markdown Document")
    } else if extension == "css"@ {
        Some("Cascading Stylesheets")
    } else if extension == "toml"@ {
        Some("TOML Document")
    } else if extension == "vue"@ {
        Some("VUE Source File")
    } else if extension == "sh"@ {
        Some("Shell Script")
    } else if extension == "bat"@ {
        Some("Batch Script")
    } else if extension == "json"@ {
        Some("JavaScript Object Notation")
    } else if extension == "7z"@ {
        Some("7-Zip Archive")
    } else if extension == "zip"@ {
        Some("ZIP Archive")
    } else if extension == "rar"@ {
        Some("RAR Archive")
    } else if extension == "dmg"@ {
        Some("Apple Disk Image")
    } else if extension == "apk"@ {
        Some("Android Application Package")
    } else if extension == "db"@ {
        Some("Database")
    } else if extension == "sqlite"@ {
        Some("SQL Database")
    } else if extension == "sqlite3"@ {
        Some("SQL Database")
    } else if extension == "sqlite-wal"@ {
        Some("SQL Database")
    } else if extension == "blend"@ {
        Some("Blender Model")
    } else if extension == "bin"@ {
        Some("Binary File")
    } else if extension == "blend1"@ {
        Some("Blender Backup Model")
    } else if extension == "dll"@ {
        Some("Dynamic-Link Library")
    } else {
        None
    }
}

/// Looks up the description of an extension.
pub fn extension_to_file_type(extension: &str) -> (res: Option<&'static str>)
    ensures
        res == spec_extension_to_file_type(extension@),
{
    reveal(spec_extension_to_file_type);
    if text::str_eq(extension, "png") {
        Some("PNG Image")
    } else if text::str_eq(extension, "jpg") {
        Some("JPEG Image")
    } else if text::str_eq(extension, "jpeg") {
        Some("JPEG Image")
    } else if text::str_eq(extension, "webp") {
        Some("WEBP Image")
    } else if text::str_eq(extension, "avif") {
        Some("AVIF Image")
    } else if text::str_eq(extension, "gif") {
        Some("GIF Animated Image")
    } else if text::str_eq(extension, "svg") {
        Some("SVG Image")
    } else if text::str_eq(extension, "ase") {
        Some("Aseprite Sprite")
    } else if text::str_eq(extension, "aseprite") {
        Some("Aseprite Sprite")
    } else if text::str_eq(extension, "xcf") {
        Some("GIMP Raw Image")
    } else if text::str_eq(extension, "mp4") {
        Some("MP4 Video")
    } else if text::str_eq(extension, "avi") {
        Some("AVI Video")
    } else if text::str_eq(extension, "mov") {
        Some("MOV Video")
    } else if text::str_eq(extension, "wmv") {
        Some("WMV Video")
    } else if text::str_eq(extension, "mkv") {
        Some("MKV Video")
    } else if text::str_eq(extension, "m4v") {
        Some("M4V Video")
    } else if text::str_eq(extension, "mp3") {
        Some("MP3 Audio")
    } else if text::str_eq(extension, "opus") {
        Some("OPUS Audio")
    } else if text::str_eq(extension, "flac") {
        Some("FLAC Audio")
    } else if text::str_eq(extension, "wav") {
        Some("WAV Audio")
    } else if text::str_eq(extension, "aiff") {
        Some("AIFF Audio")
    } else if text::str_eq(extension, "ogg") {
        Some("OGG Audio")
    } else if text::str_eq(extension, "rs") {
        Some("Rust Source File")
    } else if text::str_eq(extension, "py") {
        Some("Python Source File")
    } else if text::str_eq(extension, "c") {
        Some("C Source File")
    } else if text::str_eq(extension, "cpp") {
        Some("C++ Source File")
    } else if text::str_eq(extension, "jar") {
        Some("Java Source File")
    } else if text::str_eq(extension, "java") {
        Some("Java Source File")
    } else if text::str_eq(extension, "js") {
        Some("JavaScript Source File")
    } else if text::str_eq(extension, "ts") {
        Some("TypeScript Source File")
    } else if text::str_eq(extension, "go") {
        Some("Golang Source File")
    } else if text::str_eq(extension, "tsx") {
        Some("React Source File")
    } else if text::str_eq(extension, "jsx") {
        Some("React Source File")
    } else if text::str_eq(extension, "txt") {
        Some("Text File")
    } else if text::str_eq(extension, "cs") {
        Some("C# Source File")
    } else if text::str_eq(extension, "csx") {
        Some("C# Source File")
    } else if text::str_eq(extension, "asm") {
        Some("Assembly Source File")
    } else if text::str_eq(extension, "md") {
        Some("Markdown Document")
    } else if text::str_eq(extension, "css") {
        Some("Cascading Stylesheets")
    } else if text::str_eq(extension, "toml") {
        Some("TOML Document")
    } else if text::str_eq(extension, "vue") {
        Some("VUE Source File")
    } else if text::str_eq(extension, "sh") {
        Some("Shell Script")
    } else if text::str_eq(extension, "bat") {
        Some("Batch Script")
    } else if text::str_eq(extension, "json") {
        Some("JavaScript Object Notation")
    } else if text::str_eq(extension, "7z") {
        Some("7-Zip Archive")
    } else if text::str_eq(extension, "zip") {
        Some("ZIP Archive")
    } else if text::str_eq(extension, "rar") {
        Some("RAR Archive")
    } else if text::str_eq(extension, "dmg") {
        Some("Apple Disk Image")
    } else if text::str_eq(extension, "apk") {
        Some("Android Application Package")
    } else if text::str_eq(extension, "db") {
        Some("Database")
    } else if text::str_eq(extension, "sqlite") {
        Some("SQL Database")
    } else if text::str_eq(extension, "sqlite3") {
        Some("SQL Database")
    } else if text::str_eq(extension, "sqlite-wal") {
        Some("SQL Database")
    } else if text::str_eq(extension, "blend") {
        Some("Blender Model")
    } else if text::str_eq(extension, "bin") {
        Some("Binary File")
    } else if text::str_eq(extension, "blend1") {
        Some("Blender Backup Model")
    } else if text::str_eq(extension, "dll") {
        Some("Dynamic-Link Library")
    } else {
        None
    }
}

} // verus!
