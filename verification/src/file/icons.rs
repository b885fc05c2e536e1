//! The icon shown beside an entry.

use vstd::prelude::*;

verus! {

/// The icon that the explorer draws for an entry.
#[derive(Clone, Copy, Debug, PartialEq, Eq, Structural)]
pub enum IconKind {
    Image,
    Painting,
    Video,
    Audio,
    RustSrc,
    PySrc,
    CSrc,
    CppSrc,
    JavaSrc,
    JsSrc,
    TsSrc,
    Src,
    TsxSrc,
    JsxSrc,
    CsSrc,
    MdSrc,
    CssSrc,
    VueSrc,
    HtmlSrc,
    Script,
    Archive,
    Database,
    Sqlite,
    Cube,
    File,
    Files,
    Link,
    QuestionMark,
    BrokenLink,
    Folder,
    Scissors,
    Copy,
}

} // verus!
