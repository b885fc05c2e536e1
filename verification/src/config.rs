//! Settings: key bindings and how they are written, sorting, what is shown, clipboard behaviour.

use crate::app::Property;
use crate::order;
use crate::text;
use rayon::iter::{IntoParallelRefIterator, ParallelIterator};
use vstd::prelude::*;

verus! {

/// A key of the keyboard, as the explorer's shortcuts name it.
#[derive(Clone, Copy, Debug, PartialEq, Eq, Structural)]
pub enum Key {
    ArrowDown,
    ArrowLeft,
    ArrowRight,
    ArrowUp,
    Escape,
    Tab,
    Backspace,
    Enter,
    Space,
    Insert,
    Delete,
    Home,
    End,
    PageUp,
    PageDown,
    Backtick,
    Comma,
    Equals,
    Minus,
    Period,
    Quote,
    Semicolon,
    Slash,
    Questionmark,
    Pipe,
    OpenBracket,
    CloseBracket,
    Num0,
    Num1,
    Num2,
    Num3,
    Num4,
    Num5,
    Num6,
    Num7,
    Num8,
    Num9,
    A,
    B,
    C,
    D,
    E,
    F,
    G,
    H,
    I,
    J,
    K,
    L,
    M,
    N,
    O,
    P,
    Q,
    R,
    S,
    T,
    U,
    V,
    W,
    X,
    Y,
    Z,
    F1,
    F2,
    F3,
    F4,
    F5,
    F6,
    F7,
    F8,
    F9,
    F10,
    F11,
    F12,
    F13,
    F14,
    F15,
    F16,
    F17,
    F18,
    F19,
    F20,
    F21,
    F22,
    F23,
    F24,
    F25,
    F26,
    F27,
    F28,
    F29,
    F30,
    F31,
    F32,
    F33,
    F34,
    F35,
}

/// Which modifier keys are held (or required by a shortcut).
#[derive(Clone, Copy, Debug, PartialEq, Eq, Structural)]
pub struct Modifiers {
    pub alt: bool,
    pub ctrl: bool,
    pub shift: bool,
    pub mac_cmd: bool,
    pub command: bool,
}

/// The modifiers alt, control and shift as given, with neither command key.
pub open spec fn mods(alt: bool, ctrl: bool, shift: bool) -> Modifiers {
    Modifiers { alt, ctrl, shift, mac_cmd: false, command: false }
}

impl Modifiers {
    /// No modifier.
    pub fn none() -> (m: Modifiers)
        ensures
            m == mods(false, false, false),
    {
        Modifiers { alt: false, ctrl: false, shift: false, mac_cmd: false, command: false }
    }

    /// Control alone.
    pub fn ctrl() -> (m: Modifiers)
        ensures
            m == mods(false, true, false),
    {
        Modifiers { alt: false, ctrl: true, shift: false, mac_cmd: false, command: false }
    }

    /// Shift alone.
    pub fn shift() -> (m: Modifiers)
        ensures
            m == mods(false, false, true),
    {
        Modifiers { alt: false, ctrl: false, shift: true, mac_cmd: false, command: false }
    }

    /// Alt alone.
    pub fn alt() -> (m: Modifiers)
        ensures
            m == mods(true, false, false),
    {
        Modifiers { alt: true, ctrl: false, shift: false, mac_cmd: false, command: false }
    }

    /// The modifiers held in either set.
    pub open spec fn spec_plus(self, rhs: Modifiers) -> Modifiers {
        Modifiers {
            alt: self.alt || rhs.alt,
            ctrl: self.ctrl || rhs.ctrl,
            shift: self.shift || rhs.shift,
            mac_cmd: self.mac_cmd || rhs.mac_cmd,
            command: self.command || rhs.command,
        }
    }

    /// The modifiers held in either set.
    pub fn plus(self, rhs: Modifiers) -> (m: Modifiers)
        ensures
            m == self.spec_plus(rhs),
    {
        Modifiers {
            alt: self.alt || rhs.alt,
            ctrl: self.ctrl || rhs.ctrl,
            shift: self.shift || rhs.shift,
            mac_cmd: self.mac_cmd || rhs.mac_cmd,
            command: self.command || rhs.command,
        }
    }

    /// Every modifier of `query` is held in `self`, where `command` stands for control (or the
    /// Mac command key) and is satisfied by either.
    pub open spec fn spec_contains(self, query: Modifiers) -> bool {
        &&& (query.alt ==> self.alt)
        &&& (query.shift ==> self.shift)
        &&& (query.ctrl ==> self.ctrl || self.command)
        &&& (query.mac_cmd ==> self.mac_cmd || self.command)
        &&& (query.command ==> self.ctrl || self.command || self.mac_cmd)
    }

    /// Whether the modifiers of `query` are contained in `self`.
    pub fn contains(&self, query: Modifiers) -> (res: bool)
        ensures
            res == self.spec_contains(query),
    {
        (!query.alt || self.alt) && (!query.shift || self.shift) && (!query.ctrl || self.ctrl
            || self.command) && (!query.mac_cmd || self.mac_cmd || self.command) && (!query.command
            || self.ctrl || self.command || self.mac_cmd)
    }
}

/// A key together with the modifiers that must be held with it.
#[derive(Clone, Copy, Debug, PartialEq, Eq, Structural)]
pub struct KeyboardShortcut {
    pub modifiers: Modifiers,
    pub logical_key: Key,
}

/// The shortcut of `key` with `modifiers`.
pub fn bind(modifiers: Modifiers, key: Key) -> (res: KeyboardShortcut)
    ensures
        res == (KeyboardShortcut { modifiers, logical_key: key }),
{
    KeyboardShortcut { modifiers, logical_key: key }
}

/// What a key binding asks the explorer to do.
#[derive(Clone, Copy, Debug, PartialEq, Eq, Structural)]
pub enum KeybindAction {
    NavigateUp,
    NavigateDown,
    NavigateForward,
    NavigateBackward,
    Copy,
    Cut,
    Paste,
    ClearClipboard,
    Delete,
    Rename,
    ToggleHidden,
    CreateFile,
    CreateFolder,
    ToggleVisual,
    Refresh,
    Info,
    Search,
    Choice(usize),
}

/// An action and the shortcut that triggers it.
pub type Keybind = (KeybindAction, KeyboardShortcut);

/// The shortcut of every action.
#[derive(Clone, Copy, Debug, PartialEq, Eq, Structural)]
pub struct Keybinds {
    pub navigate_up: KeyboardShortcut,
    pub navigate_down: KeyboardShortcut,
    pub navigate_forward: KeyboardShortcut,
    pub navigate_backward: KeyboardShortcut,
    pub copy_to_clipboard: KeyboardShortcut,
    pub cut_to_clipboard: KeyboardShortcut,
    pub paste_from_clipboard: KeyboardShortcut,
    pub clear_clipboard: KeyboardShortcut,
    pub delete_selections: KeyboardShortcut,
    pub rename_file: KeyboardShortcut,
    pub toggle_hidden_view: KeyboardShortcut,
    pub create_file_path: KeyboardShortcut,
    pub create_folder_path: KeyboardShortcut,
    pub toggle_visual_mode: KeyboardShortcut,
    pub refresh: KeyboardShortcut,
    pub view_info: KeyboardShortcut,
    pub search: KeyboardShortcut,
    pub choice_0: KeyboardShortcut,
    pub choice_1: KeyboardShortcut,
    pub choice_2: KeyboardShortcut,
    pub choice_3: KeyboardShortcut,
    pub choice_4: KeyboardShortcut,
    pub choice_5: KeyboardShortcut,
    pub choice_6: KeyboardShortcut,
    pub choice_7: KeyboardShortcut,
    pub choice_8: KeyboardShortcut,
    pub choice_9: KeyboardShortcut,
}

/// The bindings that apply where the settings name none.
pub open spec fn default_keybinds() -> Keybinds {
    Keybinds {
        navigate_up: KeyboardShortcut { modifiers: mods(false, false, false), logical_key: Key::ArrowUp },
        navigate_down: KeyboardShortcut { modifiers: mods(false, false, false), logical_key: Key::ArrowDown },
        navigate_forward: KeyboardShortcut { modifiers: mods(false, false, false), logical_key: Key::ArrowRight },
        navigate_backward: KeyboardShortcut { modifiers: mods(false, false, false), logical_key: Key::ArrowLeft },
        copy_to_clipboard: KeyboardShortcut { modifiers: mods(false, true, false), logical_key: Key::C },
        cut_to_clipboard: KeyboardShortcut { modifiers: mods(false, true, false), logical_key: Key::X },
        paste_from_clipboard: KeyboardShortcut { modifiers: mods(false, true, false), logical_key: Key::V },
        clear_clipboard: KeyboardShortcut { modifiers: mods(false, true, true), logical_key: Key::V },
        delete_selections: KeyboardShortcut { modifiers: mods(false, false, false), logical_key: Key::Delete },
        rename_file: KeyboardShortcut { modifiers: mods(false, false, false), logical_key: Key::F2 },
        toggle_hidden_view: KeyboardShortcut { modifiers: mods(false, true, false), logical_key: Key::H },
        create_file_path: KeyboardShortcut { modifiers: mods(false, true, false), logical_key: Key::N },
        create_folder_path: KeyboardShortcut { modifiers: mods(true, false, false), logical_key: Key::N },
        toggle_visual_mode: KeyboardShortcut { modifiers: mods(false, false, false), logical_key: Key::V },
        refresh: KeyboardShortcut { modifiers: mods(false, true, false), logical_key: Key::R },
        view_info: KeyboardShortcut { modifiers: mods(false, false, false), logical_key: Key::F12 },
        search: KeyboardShortcut { modifiers: mods(false, false, false), logical_key: Key::Slash },
        choice_0: KeyboardShortcut { modifiers: mods(false, false, false), logical_key: Key::Num0 },
        choice_1: KeyboardShortcut { modifiers: mods(false, false, false), logical_key: Key::Num1 },
        choice_2: KeyboardShortcut { modifiers: mods(false, false, false), logical_key: Key::Num2 },
        choice_3: KeyboardShortcut { modifiers: mods(false, false, false), logical_key: Key::Num3 },
        choice_4: KeyboardShortcut { modifiers: mods(false, false, false), logical_key: Key::Num4 },
        choice_5: KeyboardShortcut { modifiers: mods(false, false, false), logical_key: Key::Num5 },
        choice_6: KeyboardShortcut { modifiers: mods(false, false, false), logical_key: Key::Num6 },
        choice_7: KeyboardShortcut { modifiers: mods(false, false, false), logical_key: Key::Num7 },
        choice_8: KeyboardShortcut { modifiers: mods(false, false, false), logical_key: Key::Num8 },
        choice_9: KeyboardShortcut { modifiers: mods(false, false, false), logical_key: Key::Num9 },
    }
}

impl Default for Keybinds {
    fn default() -> (res: Keybinds)
        ensures
            res == default_keybinds(),
    {
        Keybinds {
            navigate_up: bind(Modifiers::none(), Key::ArrowUp),
            navigate_down: bind(Modifiers::none(), Key::ArrowDown),
            navigate_forward: bind(Modifiers::none(), Key::ArrowRight),
            navigate_backward: bind(Modifiers::none(), Key::ArrowLeft),
            copy_to_clipboard: bind(Modifiers::ctrl(), Key::C),
            cut_to_clipboard: bind(Modifiers::ctrl(), Key::X),
            paste_from_clipboard: bind(Modifiers::ctrl(), Key::V),
            clear_clipboard: bind(Modifiers::ctrl().plus(Modifiers::shift()), Key::V),
            delete_selections: bind(Modifiers::none(), Key::Delete),
            rename_file: bind(Modifiers::none(), Key::F2),
            toggle_hidden_view: bind(Modifiers::ctrl(), Key::H),
            create_file_path: bind(Modifiers::ctrl(), Key::N),
            create_folder_path: bind(Modifiers::alt(), Key::N),
            toggle_visual_mode: bind(Modifiers::none(), Key::V),
            refresh: bind(Modifiers::ctrl(), Key::R),
            view_info: bind(Modifiers::none(), Key::F12),
            search: bind(Modifiers::none(), Key::Slash),
            choice_0: bind(Modifiers::none(), Key::Num0),
            choice_1: bind(Modifiers::none(), Key::Num1),
            choice_2: bind(Modifiers::none(), Key::Num2),
            choice_3: bind(Modifiers::none(), Key::Num3),
            choice_4: bind(Modifiers::none(), Key::Num4),
            choice_5: bind(Modifiers::none(), Key::Num5),
            choice_6: bind(Modifiers::none(), Key::Num6),
            choice_7: bind(Modifiers::none(), Key::Num7),
            choice_8: bind(Modifiers::none(), Key::Num8),
            choice_9: bind(Modifiers::none(), Key::Num9),
        }
    }
}

/// The key a lower-cased name denotes; an unknown name denotes F35.
#[verifier::opaque]
pub open spec fn key_named(s: Seq<char>) -> Key {
    if s == "a"@ {
        Key::A
    } else if s == "b"@ {
        Key::B
    } else if s == "c"@ {
        Key::C
    } else if s == "d"@ {
        Key::D
    } else if s == "e"@ {
        Key::E
    } else if s == "f"@ {
        Key::F
    } else if s == "g"@ {
        Key::G
    } else if s == "h"@ {
        Key::H
    } else if s == "i"@ {
        Key::I
    } else if s == "j"@ {
        Key::J
    } else if s == "k"@ {
        Key::K
    } else if s == "l"@ {
        Key::L
    } else if s == "m"@ {
        Key::M
    } else if s == "n"@ {
        Key::N
    } else if s == "o"@ {
        Key::O
    } else if s == "p"@ {
        Key::P
    } else if s == "q"@ {
        Key::Q
    } else if s == "r"@ {
        Key::R
    } else if s == "t"@ {
        Key::T
    } else if s == "u"@ {
        Key::U
    } else if s == "v"@ {
        Key::V
    } else if s == "y"@ {
        Key::Y
    } else if s == "w"@ {
        Key::W
    } else if s == "z"@ {
        Key::Z
    } else if s == "arrowup"@ {
        Key::ArrowUp
    } else if s == "arrowdown"@ {
        Key::ArrowDown
    } else if s == "arrowright"@ {
        Key::ArrowRight
    } else if s == "arrowleft"@ {
        Key::ArrowLeft
    } else if s == "`"@ {
        Key::Backtick
    } else if s == "["@ {
        Key::OpenBracket
    } else if s == "]"@ {
        Key::CloseBracket
    } else if s == ","@ {
        Key::Comma
    } else if s == "="@ {
        Key::Equals
    } else if s == "-"@ {
        Key::Minus
    } else if s == "."@ {
        Key::Period
    } else if s == "'"@ {
        Key::Quote
    } else if s == ";"@ {
        Key::Semicolon
    } else if s == "/"@ {
        Key::Slash
    } else if s == "?"@ {
        Key::Questionmark
    } else if s == "|"@ {
        Key::Pipe
    } else if s == "backspace"@ {
        Key::Backspace
    } else if s == "enter"@ {
        Key::Enter
    } else if s == "space"@ {
        Key::Space
    } else if s == "tab"@ {
        Key::Tab
    } else if s == "delete"@ {
        Key::Delete
    } else if s == "end"@ {
        Key::End
    } else if s == "home"@ {
        Key::Home
    } else if s == "insert"@ {
        Key::Insert
    } else if s == "pagedown"@ {
        Key::PageDown
    } else if s == "pageup"@ {
        Key::PageUp
    } else if s == "escape"@ {
        Key::Escape
    } else if s == "0"@ {
        Key::Num0
    } else if s == "1"@ {
        Key::Num1
    } else if s == "2"@ {
        Key::Num2
    } else if s == "3"@ {
        Key::Num3
    } else if s == "4"@ {
        Key::Num4
    } else if s == "5"@ {
        Key::Num5
    } else if s == "6"@ {
        Key::Num6
    } else if s == "7"@ {
        Key::Num7
    } else if s == "8"@ {
        Key::Num8
    } else if s == "9"@ {
        Key::Num9
    } else if s == "f1"@ {
        Key::F1
    } else if s == "f2"@ {
        Key::F2
    } else if s == "f3"@ {
        Key::F3
    } else if s == "f4"@ {
        Key::F4
    } else if s == "f5"@ {
        Key::F5
    } else if s == "f6"@ {
        Key::F6
    } else if s == "f7"@ {
        Key::F7
    } else if s == "f8"@ {
        Key::F8
    } else if s == "f9"@ {
        Key::F9
    } else if s == "f10"@ {
        Key::F10
    } else if s == "f11"@ {
        Key::F11
    } else if s == "f12"@ {
        Key::F12
    } else if s == "f13"@ {
        Key::F13
    } else if s == "f14"@ {
        Key::F14
    } else if s == "f15"@ {
        Key::F15
    } else if s == "f16"@ {
        Key::F16
    } else if s == "f17"@ {
        Key::F17
    } else if s == "f18"@ {
        Key::F18
    } else if s == "f19"@ {
        Key::F19
    } else if s == "f20"@ {
        Key::F20
    } else if s == "f21"@ {
        Key::F21
    } else if s == "f22"@ {
        Key::F22
    } else if s == "f23"@ {
        Key::F23
    } else if s == "f24"@ {
        Key::F24
    } else if s == "f25"@ {
        Key::F25
    } else if s == "f26"@ {
        Key::F26
    } else if s == "f27"@ {
        Key::F27
    } else if s == "f28"@ {
        Key::F28
    } else if s == "f29"@ {
        Key::F29
    } else if s == "f30"@ {
        Key::F30
    } else if s == "f31"@ {
        Key::F31
    } else if s == "f32"@ {
        Key::F32
    } else if s == "f33"@ {
        Key::F33
    } else if s == "f34"@ {
        Key::F34
    } else if s == "f35"@ {
        Key::F35
    } else {
        Key::F35
    }
}

/// The key that `name` (lower-cased) denotes.
pub fn key_from_name(name: &str) -> (res: Key)
    ensures
        res == key_named(name@),
{
    reveal(key_named);
    if text::str_eq(name, "a") {
        Key::A
    } else if text::str_eq(name, "b") {
        Key::B
    } else if text::str_eq(name, "c") {
        Key::C
    } else if text::str_eq(name, "d") {
        Key::D
    } else if text::str_eq(name, "e") {
        Key::E
    } else if text::str_eq(name, "f") {
        Key::F
    } else if text::str_eq(name, "g") {
        Key::G
    } else if text::str_eq(name, "h") {
        Key::H
    } else if text::str_eq(name, "i") {
        Key::I
    } else if text::str_eq(name, "j") {
        Key::J
    } else if text::str_eq(name, "k") {
        Key::K
    } else if text::str_eq(name, "l") {
        Key::L
    } else if text::str_eq(name, "m") {
        Key::M
    } else if text::str_eq(name, "n") {
        Key::N
    } else if text::str_eq(name, "o") {
        Key::O
    } else if text::str_eq(name, "p") {
        Key::P
    } else if text::str_eq(name, "q") {
        Key::Q
    } else if text::str_eq(name, "r") {
        Key::R
    } else if text::str_eq(name, "t") {
        Key::T
    } else if text::str_eq(name, "u") {
        Key::U
    } else if text::str_eq(name, "v") {
        Key::V
    } else if text::str_eq(name, "y") {
        Key::Y
    } else if text::str_eq(name, "w") {
        Key::W
    } else if text::str_eq(name, "z") {
        Key::Z
    } else if text::str_eq(name, "arrowup") {
        Key::ArrowUp
    } else if text::str_eq(name, "arrowdown") {
        Key::ArrowDown
    } else if text::str_eq(name, "arrowright") {
        Key::ArrowRight
    } else if text::str_eq(name, "arrowleft") {
        Key::ArrowLeft
    } else if text::str_eq(name, "`") {
        Key::Backtick
    } else if text::str_eq(name, "[") {
        Key::OpenBracket
    } else if text::str_eq(name, "]") {
        Key::CloseBracket
    } else if text::str_eq(name, ",") {
        Key::Comma
    } else if text::str_eq(name, "=") {
        Key::Equals
    } else if text::str_eq(name, "-") {
        Key::Minus
    } else if text::str_eq(name, ".") {
        Key::Period
    } else if text::str_eq(name, "'") {
        Key::Quote
    } else if text::str_eq(name, ";") {
        Key::Semicolon
    } else if text::str_eq(name, "/") {
        Key::Slash
    } else if text::str_eq(name, "?") {
        Key::Questionmark
    } else if text::str_eq(name, "|") {
        Key::Pipe
    } else if text::str_eq(name, "backspace") {
        Key::Backspace
    } else if text::str_eq(name, "enter") {
        Key::Enter
    } else if text::str_eq(name, "space") {
        Key::Space
    } else if text::str_eq(name, "tab") {
        Key::Tab
    } else if text::str_eq(name, "delete") {
        Key::Delete
    } else if text::str_eq(name, "end") {
        Key::End
    } else if text::str_eq(name, "home") {
        Key::Home
    } else if text::str_eq(name, "insert") {
        Key::Insert
    } else if text::str_eq(name, "pagedown") {
        Key::PageDown
    } else if text::str_eq(name, "pageup") {
        Key::PageUp
    } else if text::str_eq(name, "escape") {
        Key::Escape
    } else if text::str_eq(name, "0") {
        Key::Num0
    } else if text::str_eq(name, "1") {
        Key::Num1
    } else if text::str_eq(name, "2") {
        Key::Num2
    } else if text::str_eq(name, "3") {
        Key::Num3
    } else if text::str_eq(name, "4") {
        Key::Num4
    } else if text::str_eq(name, "5") {
        Key::Num5
    } else if text::str_eq(name, "6") {
        Key::Num6
    } else if text::str_eq(name, "7") {
        Key::Num7
    } else if text::str_eq(name, "8") {
        Key::Num8
    } else if text::str_eq(name, "9") {
        Key::Num9
    } else if text::str_eq(name, "f1") {
        Key::F1
    } else if text::str_eq(name, "f2") {
        Key::F2
    } else if text::str_eq(name, "f3") {
        Key::F3
    } else if text::str_eq(name, "f4") {
        Key::F4
    } else if text::str_eq(name, "f5") {
        Key::F5
    } else if text::str_eq(name, "f6") {
        Key::F6
    } else if text::str_eq(name, "f7") {
        Key::F7
    } else if text::str_eq(name, "f8") {
        Key::F8
    } else if text::str_eq(name, "f9") {
        Key::F9
    } else if text::str_eq(name, "f10") {
        Key::F10
    } else if text::str_eq(name, "f11") {
        Key::F11
    } else if text::str_eq(name, "f12") {
        Key::F12
    } else if text::str_eq(name, "f13") {
        Key::F13
    } else if text::str_eq(name, "f14") {
        Key::F14
    } else if text::str_eq(name, "f15") {
        Key::F15
    } else if text::str_eq(name, "f16") {
        Key::F16
    } else if text::str_eq(name, "f17") {
        Key::F17
    } else if text::str_eq(name, "f18") {
        Key::F18
    } else if text::str_eq(name, "f19") {
        Key::F19
    } else if text::str_eq(name, "f20") {
        Key::F20
    } else if text::str_eq(name, "f21") {
        Key::F21
    } else if text::str_eq(name, "f22") {
        Key::F22
    } else if text::str_eq(name, "f23") {
        Key::F23
    } else if text::str_eq(name, "f24") {
        Key::F24
    } else if text::str_eq(name, "f25") {
        Key::F25
    } else if text::str_eq(name, "f26") {
        Key::F26
    } else if text::str_eq(name, "f27") {
        Key::F27
    } else if text::str_eq(name, "f28") {
        Key::F28
    } else if text::str_eq(name, "f29") {
        Key::F29
    } else if text::str_eq(name, "f30") {
        Key::F30
    } else if text::str_eq(name, "f31") {
        Key::F31
    } else if text::str_eq(name, "f32") {
        Key::F32
    } else if text::str_eq(name, "f33") {
        Key::F33
    } else if text::str_eq(name, "f34") {
        Key::F34
    } else if text::str_eq(name, "f35") {
        Key::F35
    } else {
        Key::F35
    }
}

/// The list of bindings in the order the settings declare them.
pub open spec fn keybind_list(k: Keybinds) -> Seq<Keybind> {
    seq![
        (KeybindAction::NavigateUp, k.navigate_up),
        (KeybindAction::NavigateDown, k.navigate_down),
        (KeybindAction::NavigateForward, k.navigate_forward),
        (KeybindAction::NavigateBackward, k.navigate_backward),
        (KeybindAction::Copy, k.copy_to_clipboard),
        (KeybindAction::Cut, k.cut_to_clipboard),
        (KeybindAction::Paste, k.paste_from_clipboard),
        (KeybindAction::ClearClipboard, k.clear_clipboard),
        (KeybindAction::Delete, k.delete_selections),
        (KeybindAction::Rename, k.rename_file),
        (KeybindAction::ToggleHidden, k.toggle_hidden_view),
        (KeybindAction::CreateFile, k.create_file_path),
        (KeybindAction::CreateFolder, k.create_folder_path),
        (KeybindAction::ToggleVisual, k.toggle_visual_mode),
        (KeybindAction::Refresh, k.refresh),
        (KeybindAction::Search, k.search),
        (KeybindAction::Info, k.view_info),
        (KeybindAction::Choice(0), k.choice_0),
        (KeybindAction::Choice(1), k.choice_1),
        (KeybindAction::Choice(2), k.choice_2),
        (KeybindAction::Choice(3), k.choice_3),
        (KeybindAction::Choice(4), k.choice_4),
        (KeybindAction::Choice(5), k.choice_5),
        (KeybindAction::Choice(6), k.choice_6),
        (KeybindAction::Choice(7), k.choice_7),
        (KeybindAction::Choice(8), k.choice_8),
        (KeybindAction::Choice(9), k.choice_9),
    ]
}

/// The bindings as a list, in declaration order.
pub fn keybinds_in_order(k: &Keybinds) -> (res: Vec<Keybind>)
    ensures
        res@ == keybind_list(*k),
{
    let mut list: Vec<Keybind> = Vec::new();
    list.push((KeybindAction::NavigateUp, k.navigate_up));
    list.push((KeybindAction::NavigateDown, k.navigate_down));
    list.push((KeybindAction::NavigateForward, k.navigate_forward));
    list.push((KeybindAction::NavigateBackward, k.navigate_backward));
    list.push((KeybindAction::Copy, k.copy_to_clipboard));
    list.push((KeybindAction::Cut, k.cut_to_clipboard));
    list.push((KeybindAction::Paste, k.paste_from_clipboard));
    list.push((KeybindAction::ClearClipboard, k.clear_clipboard));
    list.push((KeybindAction::Delete, k.delete_selections));
    list.push((KeybindAction::Rename, k.rename_file));
    list.push((KeybindAction::ToggleHidden, k.toggle_hidden_view));
    list.push((KeybindAction::CreateFile, k.create_file_path));
    list.push((KeybindAction::CreateFolder, k.create_folder_path));
    list.push((KeybindAction::ToggleVisual, k.toggle_visual_mode));
    list.push((KeybindAction::Refresh, k.refresh));
    list.push((KeybindAction::Search, k.search));
    list.push((KeybindAction::Info, k.view_info));
    list.push((KeybindAction::Choice(0), k.choice_0));
    list.push((KeybindAction::Choice(1), k.choice_1));
    list.push((KeybindAction::Choice(2), k.choice_2));
    list.push((KeybindAction::Choice(3), k.choice_3));
    list.push((KeybindAction::Choice(4), k.choice_4));
    list.push((KeybindAction::Choice(5), k.choice_5));
    list.push((KeybindAction::Choice(6), k.choice_6));
    list.push((KeybindAction::Choice(7), k.choice_7));
    list.push((KeybindAction::Choice(8), k.choice_8));
    list.push((KeybindAction::Choice(9), k.choice_9));
    assert(list@ =~= keybind_list(*k));
    list
}

/// Key bindings as written in the settings file; a missing one keeps its current value.
#[derive(Clone, Debug)]
pub struct RawKeybinds {
    pub navigate_up: Option<String>,
    pub navigate_down: Option<String>,
    pub navigate_forward: Option<String>,
    pub navigate_backward: Option<String>,
    pub copy_to_clipboard: Option<String>,
    pub cut_to_clipboard: Option<String>,
    pub paste_from_clipboard: Option<String>,
    pub clear_clipboard: Option<String>,
    pub delete_selections: Option<String>,
    pub rename_file: Option<String>,
    pub toggle_hidden_view: Option<String>,
    pub create_file_path: Option<String>,
    pub create_folder_path: Option<String>,
    pub toggle_visual_mode: Option<String>,
    pub refresh: Option<String>,
    pub view_info: Option<String>,
    pub search: Option<String>,
    pub choice_0: Option<String>,
    pub choice_1: Option<String>,
    pub choice_2: Option<String>,
    pub choice_3: Option<String>,
    pub choice_4: Option<String>,
    pub choice_5: Option<String>,
    pub choice_6: Option<String>,
    pub choice_7: Option<String>,
    pub choice_8: Option<String>,
    pub choice_9: Option<String>,
}

/// The binding that `raw` sets, or `cur` where `raw` names none.
pub open spec fn apply_bind(cur: KeyboardShortcut, raw: Option<String>) -> KeyboardShortcut {
    match raw {
        Some(v) => spec_match_key(v@),
        None => cur,
    }
}

fn bind_field(cur: &mut KeyboardShortcut, raw: &Option<String>)
    ensures
        *final(cur) == apply_bind(*old(cur), *raw),
{
    match raw {
        Some(v) => {
            match match_key(v.as_str()) {
                Some(k) => {
                    *cur = k;
                },
                None => {},
            }
        },
        None => {},
    }
}


/// The bindings after applying the ones `raw` writes.
#[verifier::opaque]
pub open spec fn applied_keybinds(raw: RawKeybinds, k: Keybinds) -> Keybinds {
    Keybinds {
        navigate_up: apply_bind(k.navigate_up, raw.navigate_up),
        navigate_down: apply_bind(k.navigate_down, raw.navigate_down),
        navigate_forward: apply_bind(k.navigate_forward, raw.navigate_forward),
        navigate_backward: apply_bind(k.navigate_backward, raw.navigate_backward),
        copy_to_clipboard: apply_bind(k.copy_to_clipboard, raw.copy_to_clipboard),
        cut_to_clipboard: apply_bind(k.cut_to_clipboard, raw.cut_to_clipboard),
        paste_from_clipboard: apply_bind(k.paste_from_clipboard, raw.paste_from_clipboard),
        clear_clipboard: apply_bind(k.clear_clipboard, raw.clear_clipboard),
        delete_selections: apply_bind(k.delete_selections, raw.delete_selections),
        rename_file: apply_bind(k.rename_file, raw.rename_file),
        toggle_hidden_view: apply_bind(k.toggle_hidden_view, raw.toggle_hidden_view),
        create_file_path: apply_bind(k.create_file_path, raw.create_file_path),
        create_folder_path: apply_bind(k.create_folder_path, raw.create_folder_path),
        toggle_visual_mode: apply_bind(k.toggle_visual_mode, raw.toggle_visual_mode),
        refresh: apply_bind(k.refresh, raw.refresh),
        view_info: apply_bind(k.view_info, raw.view_info),
        search: apply_bind(k.search, raw.search),
        choice_0: apply_bind(k.choice_0, raw.choice_0),
        choice_1: apply_bind(k.choice_1, raw.choice_1),
        choice_2: apply_bind(k.choice_2, raw.choice_2),
        choice_3: apply_bind(k.choice_3, raw.choice_3),
        choice_4: apply_bind(k.choice_4, raw.choice_4),
        choice_5: apply_bind(k.choice_5, raw.choice_5),
        choice_6: apply_bind(k.choice_6, raw.choice_6),
        choice_7: apply_bind(k.choice_7, raw.choice_7),
        choice_8: apply_bind(k.choice_8, raw.choice_8),
        choice_9: apply_bind(k.choice_9, raw.choice_9),
    }
}

/// Applies the bindings written in the settings file.
pub fn process_raw_keybinds(raw_config: &RawKeybinds, config: &mut Keybinds)
    ensures
        *final(config) == applied_keybinds(*raw_config, *old(config)),
{
    reveal(applied_keybinds);
    bind_field(&mut config.navigate_up, &raw_config.navigate_up);
    bind_field(&mut config.navigate_down, &raw_config.navigate_down);
    bind_field(&mut config.navigate_forward, &raw_config.navigate_forward);
    bind_field(&mut config.navigate_backward, &raw_config.navigate_backward);
    bind_field(&mut config.copy_to_clipboard, &raw_config.copy_to_clipboard);
    bind_field(&mut config.cut_to_clipboard, &raw_config.cut_to_clipboard);
    bind_field(&mut config.paste_from_clipboard, &raw_config.paste_from_clipboard);
    bind_field(&mut config.clear_clipboard, &raw_config.clear_clipboard);
    bind_field(&mut config.delete_selections, &raw_config.delete_selections);
    bind_field(&mut config.rename_file, &raw_config.rename_file);
    bind_field(&mut config.toggle_hidden_view, &raw_config.toggle_hidden_view);
    bind_field(&mut config.create_file_path, &raw_config.create_file_path);
    bind_field(&mut config.create_folder_path, &raw_config.create_folder_path);
    bind_field(&mut config.toggle_visual_mode, &raw_config.toggle_visual_mode);
    bind_field(&mut config.refresh, &raw_config.refresh);
    bind_field(&mut config.view_info, &raw_config.view_info);
    bind_field(&mut config.search, &raw_config.search);
    bind_field(&mut config.choice_0, &raw_config.choice_0);
    bind_field(&mut config.choice_1, &raw_config.choice_1);
    bind_field(&mut config.choice_2, &raw_config.choice_2);
    bind_field(&mut config.choice_3, &raw_config.choice_3);
    bind_field(&mut config.choice_4, &raw_config.choice_4);
    bind_field(&mut config.choice_5, &raw_config.choice_5);
    bind_field(&mut config.choice_6, &raw_config.choice_6);
    bind_field(&mut config.choice_7, &raw_config.choice_7);
    bind_field(&mut config.choice_8, &raw_config.choice_8);
    bind_field(&mut config.choice_9, &raw_config.choice_9);
}

/// The modifier a (trimmed, lower-cased) name denotes: `ctrl`, `shift` or `alt`; any other name
/// denotes none.
pub open spec fn modifier_named(s: Seq<char>) -> Modifiers {
    if s == "ctrl"@ {
        mods(false, true, false)
    } else if s == "shift"@ {
        mods(false, false, true)
    } else if s == "alt"@ {
        mods(true, false, false)
    } else {
        mods(false, false, false)
    }
}

/// The modifier that `name` denotes.
pub fn modifier_from_name(name: &str) -> (res: Modifiers)
    ensures
        res == modifier_named(name@),
{
    if text::str_eq(name, "ctrl") {
        Modifiers::ctrl()
    } else if text::str_eq(name, "shift") {
        Modifiers::shift()
    } else if text::str_eq(name, "alt") {
        Modifiers::alt()
    } else {
        Modifiers::none()
    }
}

/// All the modifiers the pieces name, each piece trimmed.
pub open spec fn spec_modifiers(pieces: Seq<Seq<char>>) -> Modifiers
    decreases pieces.len(),
{
    if pieces.len() == 0 {
        mods(false, false, false)
    } else {
        spec_modifiers(pieces.drop_last()).spec_plus(modifier_named(text::spec_trim(pieces.last())))
    }
}

/// The shortcut that a setting such as `Ctrl + Shift + Q` writes: the text is lower-cased and cut
/// at every `+`; the last piece, trimmed and lower-cased, names the key, and the pieces before it,
/// trimmed, name the modifiers.
pub open spec fn spec_match_key(raw: Seq<char>) -> KeyboardShortcut {
    let pieces = text::spec_split(text::spec_lowercase(raw), '+');
    shortcut_of(text::spec_lowercase(raw), text::spec_lowercase(text::spec_trim(pieces.last())))
}

/// The shortcut of the lower-cased setting `lower` whose key is named `key_name`: the pieces of
/// `lower` before its last `+`, trimmed, name the modifiers.
pub open spec fn shortcut_of(lower: Seq<char>, key_name: Seq<char>) -> KeyboardShortcut {
    KeyboardShortcut {
        modifiers: spec_modifiers(text::spec_split(lower, '+').drop_last()),
        logical_key: key_named(key_name),
    }
}

/// The shortcut of a lower-cased setting `lower` whose key is named `key_name`.
pub fn shortcut_from_pieces(lower: &str, key_name: &str) -> (res: KeyboardShortcut)
    ensures
        res == shortcut_of(lower@, key_name@),
{
    let chars = text::chars_of(lower);
    let pieces = text::split_chars(&chars, '+');
    let ghost sp = text::spec_split(lower@, '+');
    proof {
        text::lemma_split_nonempty(lower@, '+');
    }
    assert(pieces@.map_values(|p: Vec<char>| p@) == sp);
    let n = pieces.len();
    assert(n == sp.len());
    let logical_key = key_from_name(key_name);
    let mut modifiers = Modifiers::none();
    let mut i: usize = 0;
    while i < n - 1
        invariant
            n == pieces.len(),
            n == sp.len(),
            n >= 1,
            pieces@.map_values(|p: Vec<char>| p@) == sp,
            i <= n - 1,
            modifiers == spec_modifiers(sp.subrange(0, i as int)),
        decreases n - 1 - i,
    {
        let piece = text::string_from_chars(&pieces[i]);
        assert(pieces@[i as int]@ == sp[i as int]);
        let t = text::trim(piece.as_str());
        modifiers = modifiers.plus(modifier_from_name(t.as_str()));
        assert(sp.subrange(0, i + 1).drop_last() =~= sp.subrange(0, i as int));
        i = i + 1;
    }
    assert(sp.subrange(0, n - 1) =~= sp.drop_last());
    KeyboardShortcut { modifiers, logical_key }
}

/// Reads a key binding written as `[modifier +]* key`, case-insensitively.
pub fn match_key(raw_key: &str) -> (res: Option<KeyboardShortcut>)
    ensures
        res == Some(spec_match_key(raw_key@)),
{
    let lower = text::to_lowercase(raw_key);
    let chars = text::chars_of(lower.as_str());
    let pieces = text::split_chars(&chars, '+');
    let ghost sp = text::spec_split(lower@, '+');
    proof {
        text::lemma_split_nonempty(lower@, '+');
    }
    assert(pieces@.map_values(|p: Vec<char>| p@) == sp);
    let n = pieces.len();
    let last = text::string_from_chars(&pieces[n - 1]);
    assert(pieces@[n - 1]@ == sp.last());
    let trimmed = text::trim(last.as_str());
    let key_name = text::to_lowercase(trimmed.as_str());
    Some(shortcut_from_pieces(lower.as_str(), key_name.as_str()))
}

/// How many of control, shift and alt `modifiers` holds.
pub open spec fn spec_count_mod(modifiers: Modifiers) -> nat {
    (if modifiers.spec_contains(mods(false, true, false)) { 1nat } else { 0nat }) + (if modifiers.spec_contains(
        mods(false, false, true),
    ) {
        1nat
    } else {
        0nat
    }) + (if modifiers.spec_contains(mods(true, false, false)) { 1nat } else { 0nat })
}

/// Counts the held modifiers among control, shift and alt.
pub fn count_mod(modifiers: &Modifiers) -> (res: u8)
    ensures
        res == spec_count_mod(*modifiers),
{
    let mut count: u8 = 0;
    if modifiers.contains(Modifiers::ctrl()) {
        count = count + 1;
    }
    if modifiers.contains(Modifiers::shift()) {
        count = count + 1;
    }
    if modifiers.contains(Modifiers::alt()) {
        count = count + 1;
    }
    count
}

/// `list` holds the bindings of `declared`, those with more modifiers first, ties in declared
/// order: `list[i] == declared[m[i]]` for a permutation `m`.
pub open spec fn keybinds_ordered(list: Seq<Keybind>, declared: Seq<Keybind>) -> bool {
    exists|m: Seq<int>|
        #![trigger order::is_index_perm(m, declared.len() as int)]
        order::is_index_perm(m, declared.len() as int) && list.len() == declared.len() && (forall|i: int|
            0 <= i < list.len() ==> #[trigger] list[i] == declared[m[i]]) && (forall|i: int, j: int|
            #![trigger m[i], m[j]]
            0 <= i < j < list.len() ==> spec_count_mod(declared[m[i]].1.modifiers) > spec_count_mod(
                declared[m[j]].1.modifiers,
            ) || (spec_count_mod(declared[m[i]].1.modifiers) == spec_count_mod(
                declared[m[j]].1.modifiers,
            ) && m[i] < m[j]))
}

/// Fills `list` with every binding, the ones with more modifiers first, so that a shortcut is
/// tried before a shorter one that it contains.
pub fn listing_keybinds(keybinds: &Keybinds, list: &mut Vec<Keybind>)
    ensures
        keybinds_ordered(final(list)@, keybind_list(*keybinds)),
{
    let declared = keybinds_in_order(keybinds);
    let n = declared.len();
    let mut keys: Vec<Vec<u64>> = Vec::new();
    let mut p: usize = 0;
    while p < n
        invariant
            n == declared.len(),
            p <= n,
            keys.len() == p,
            forall|k: int|
                0 <= k < p ==> #[trigger] keys@[k]@ == seq![
                    (3 - spec_count_mod(declared@[k].1.modifiers)) as u64,
                    k as u64,
                ],
        decreases n - p,
    {
        let c = count_mod(&declared[p].1.modifiers);
        let mut k: Vec<u64> = Vec::new();
        k.push(3 - c as u64);
        k.push(p as u64);
        keys.push(k);
        p = p + 1;
    }
    let ghost before = keys@;
    order::par_sort_keys(&mut keys);
    let ghost m = choose|m: Seq<int>|
        #[trigger] order::is_index_perm(m, order::key_views(before).len() as int)
            && order::key_views(keys@).len() == order::key_views(before).len() && (forall|i: int|
            0 <= i < order::key_views(keys@).len() ==> order::key_views(keys@)[i]
                == order::key_views(before)[m[i]]);
    assert forall|i: int| 0 <= i < n implies #[trigger] keys@[i]@ == before[m[i]]@ by {
        assert(order::key_views(keys@)[i] == order::key_views(before)[m[i]]);
    }
    let mut out: Vec<Keybind> = Vec::new();
    let mut i: usize = 0;
    while i < n
        invariant
            n == declared.len(),
            keys.len() == n,
            order::is_index_perm(m, n as int),
            forall|k: int| 0 <= k < n ==> #[trigger] keys@[k]@ == before[m[k]]@,
            forall|k: int|
                0 <= k < n ==> #[trigger] before[k]@ == seq![
                    (3 - spec_count_mod(declared@[k].1.modifiers)) as u64,
                    k as u64,
                ],
            i <= n,
            out.len() == i,
            forall|k: int| 0 <= k < i ==> #[trigger] out@[k] == declared@[m[k]],
        decreases n - i,
    {
        assert(keys@[i as int]@ == before[m[i as int]]@);
        let v = keys[i][1];
        let pos = v as usize;
        out.push(declared[pos]);
        i = i + 1;
    }
    proof {
        assert forall|a: int, b: int|
            #![trigger m[a], m[b]]
            0 <= a < b < n implies spec_count_mod(declared@[m[a]].1.modifiers) > spec_count_mod(
            declared@[m[b]].1.modifiers,
        ) || (spec_count_mod(declared@[m[a]].1.modifiers) == spec_count_mod(
            declared@[m[b]].1.modifiers,
        ) && m[a] < m[b]) by {
            let ka = order::key_views(keys@)[a];
            let kb = order::key_views(keys@)[b];
            assert(keys@[a]@ == before[m[a]]@);
            assert(keys@[b]@ == before[m[b]]@);
            assert(m[a] != m[b]);
            assert(!order::lex_lt(kb, ka));
            if ka == kb {
                assert(ka[1] == kb[1]);
            }
            order::lemma_lex_total(ka, kb);
            reveal_with_fuel(order::lex_lt, 3);
            assert(ka.drop_first().drop_first() =~= Seq::<u64>::empty());
            assert(kb.drop_first().drop_first() =~= Seq::<u64>::empty());
        }
    }
    *list = out;
}

/// How entries are ordered.
#[derive(Clone, Copy, Debug, PartialEq, Eq, Structural)]
pub struct Sorting {
    pub sorting_by: Property,
    pub reversed: bool,
}

impl Default for Sorting {
    fn default() -> (res: Sorting)
        ensures
            res == (Sorting { sorting_by: Property::Name, reversed: false }),
    {
        Sorting { sorting_by: Property::Name, reversed: false }
    }
}

/// What the explorer shows and how.
#[derive(Clone, Debug)]
pub struct ViewConf {
    pub explorer: Vec<Property>,
    pub metadata: Vec<Property>,
    pub dark_mode: bool,
    pub view_hidden_files: bool,
    pub format_date: String,
    pub info_toast_time: u64,
    pub danger_toast_time: u64,
    pub success_toast_time: u64,
}

impl Default for ViewConf {
    fn default() -> (res: ViewConf)
        ensures
            res.explorer@ == seq![Property::Name, Property::Size, Property::Type],
            res.metadata@ == seq![
                Property::Name,
                Property::Type,
                Property::Size,
                Property::Accessed,
                Property::Created,
            ],
            !res.dark_mode,
            !res.view_hidden_files,
            res.format_date@ == "%d/%m/%Y, %I:%M:%S %p"@,
            res.info_toast_time == 5000,
            res.danger_toast_time == 7000,
            res.success_toast_time == 3000,
    {
        let mut explorer: Vec<Property> = Vec::new();
        explorer.push(Property::Name);
        explorer.push(Property::Size);
        explorer.push(Property::Type);
        let mut metadata: Vec<Property> = Vec::new();
        metadata.push(Property::Name);
        metadata.push(Property::Type);
        metadata.push(Property::Size);
        metadata.push(Property::Accessed);
        metadata.push(Property::Created);
        assert(explorer@ =~= seq![Property::Name, Property::Size, Property::Type]);
        assert(metadata@ =~= seq![
            Property::Name,
            Property::Type,
            Property::Size,
            Property::Accessed,
            Property::Created,
        ]);
        ViewConf {
            explorer,
            metadata,
            dark_mode: false,
            view_hidden_files: false,
            format_date: text::owned("%d/%m/%Y, %I:%M:%S %p"),
            info_toast_time: 5000,
            danger_toast_time: 7000,
            success_toast_time: 3000,
        }
    }
}

/// Whether copying or cutting replaces the clipboard's items or adds to them.
#[derive(Clone, Copy, Debug, PartialEq, Eq, Structural)]
pub enum ClipboardBehaviour {
    Replace,
    Addition,
}

impl Default for ClipboardBehaviour {
    fn default() -> (res: ClipboardBehaviour)
        ensures
            res == ClipboardBehaviour::Replace,
    {
        ClipboardBehaviour::Replace
    }
}

/// Clipboard settings.
#[derive(Clone, Copy, Debug, PartialEq, Eq, Structural)]
pub struct ClipboardConf {
    pub behaviour: ClipboardBehaviour,
}

impl Default for ClipboardConf {
    fn default() -> (res: ClipboardConf)
        ensures
            res.behaviour == ClipboardBehaviour::Replace,
    {
        ClipboardConf { behaviour: ClipboardBehaviour::Replace }
    }
}

/// All settings.
#[derive(Clone, Debug)]
pub struct Config {
    pub keybinds: Keybinds,
    pub keybinds_list: Vec<Keybind>,
    pub sorting: Sorting,
    pub view: ViewConf,
    pub clipboard: ClipboardConf,
}

impl Default for Config {
    fn default() -> (res: Config)
        ensures
            res.keybinds == default_keybinds(),
            res.keybinds_list@.len() == 0,
            res.sorting == (Sorting { sorting_by: Property::Name, reversed: false }),
            res.view.explorer@ == seq![Property::Name, Property::Size, Property::Type],
            res.view.metadata@ == seq![
                Property::Name,
                Property::Type,
                Property::Size,
                Property::Accessed,
                Property::Created,
            ],
            !res.view.dark_mode,
            !res.view.view_hidden_files,
            res.view.format_date@ == "%d/%m/%Y, %I:%M:%S %p"@,
            res.view.info_toast_time == 5000,
            res.view.danger_toast_time == 7000,
            res.view.success_toast_time == 3000,
            res.clipboard.behaviour == ClipboardBehaviour::Replace,
    {
        Config {
            keybinds: Keybinds::default(),
            keybinds_list: Vec::new(),
            sorting: Sorting::default(),
            view: ViewConf::default(),
            clipboard: ClipboardConf::default(),
        }
    }
}

impl Config {
    /// Whether `property` has to be read from the disk: it is shown in the explorer, or the
    /// entries are sorted by it.
    pub fn should_fetch(&self, property: Property) -> (res: bool)
        ensures
            res == (self.view.explorer@.contains(property) || self.sorting.sorting_by == property),
    {
        let mut i: usize = 0;
        while i < self.view.explorer.len()
            invariant
                i <= self.view.explorer.len(),
                forall|k: int| 0 <= k < i ==> self.view.explorer@[k] != property,
            decreases self.view.explorer.len() - i,
        {
            if self.view.explorer[i] == property {
                assert(self.view.explorer@[i as int] == property);
                return true;
            }
            i = i + 1;
        }
        self.sorting.sorting_by == property
    }
}

/// Settings as read from the settings file; a missing table or key leaves the setting as it is.
#[derive(Clone, Debug)]
pub struct RawConfig {
    pub keybinds: Option<RawKeybinds>,
    pub sorting: Option<RawSorting>,
    pub view: Option<RawView>,
    pub clipboard: Option<RawClipboard>,
}

/// The `[sorting]` table.
#[derive(Clone, Debug)]
pub struct RawSorting {
    pub sorting_by: Option<String>,
    pub reversed: Option<bool>,
}

/// The `[view]` table.
#[derive(Clone, Debug)]
pub struct RawView {
    pub explorer: Option<Vec<String>>,
    pub metadata: Option<Vec<String>>,
    pub format_date: Option<String>,
    pub dark_mode: Option<bool>,
    pub view_hidden_files: Option<bool>,
    pub info_toast_time: Option<u64>,
    pub danger_toast_time: Option<u64>,
    pub success_toast_time: Option<u64>,
}

/// The `[clipboard]` table.
#[derive(Clone, Debug)]
pub struct RawClipboard {
    pub behaviour: Option<String>,
}

/// The property a lower-cased name denotes; an unknown name means `Name`.
pub open spec fn property_named(s: Seq<char>) -> Property {
    if s == "name"@ {
        Property::Name
    } else if s == "accessed"@ {
        Property::Accessed
    } else if s == "created"@ {
        Property::Created
    } else if s == "type"@ {
        Property::Type
    } else if s == "size"@ {
        Property::Size
    } else if s == "path"@ {
        Property::Path
    } else {
        Property::Name
    }
}

/// The property that the lower-cased name `s` denotes.
pub fn property_from_name(s: &str) -> (res: Property)
    ensures
        res == property_named(s@),
{
    if text::str_eq(s, "name") {
        Property::Name
    } else if text::str_eq(s, "accessed") {
        Property::Accessed
    } else if text::str_eq(s, "created") {
        Property::Created
    } else if text::str_eq(s, "type") {
        Property::Type
    } else if text::str_eq(s, "size") {
        Property::Size
    } else if text::str_eq(s, "path") {
        Property::Path
    } else {
        Property::Name
    }
}

/// The property a setting names, case-insensitively; an unknown name means `Name`.
pub open spec fn spec_match_property(input: Seq<char>) -> Property {
    property_named(text::spec_lowercase(input))
}

/// Reads a property name.
pub fn match_property(input: &str) -> (res: Property)
    ensures
        res == spec_match_property(input@),
{
    let lower = text::to_lowercase(input);
    property_from_name(lower.as_str())
}

/// The sorting settings after applying `raw`.
pub open spec fn applied_sorting(raw: RawSorting, s: Sorting) -> Sorting {
    Sorting {
        sorting_by: match raw.sorting_by {
            Some(v) => spec_match_property(v@),
            None => s.sorting_by,
        },
        reversed: match raw.reversed {
            Some(v) => v,
            None => s.reversed,
        },
    }
}

/// Applies the `[sorting]` table.
pub fn process_raw_sorting(raw_config: &RawSorting, config: &mut Sorting)
    ensures
        *final(config) == applied_sorting(*raw_config, *old(config)),
{
    match &raw_config.sorting_by {
        Some(v) => {
            config.sorting_by = match_property(v.as_str());
        },
        None => {},
    }
    match raw_config.reversed {
        Some(v) => {
            config.reversed = v;
        },
        None => {},
    }
}

/// The properties named by `v`, in order.
pub open spec fn properties_named(v: Seq<String>) -> Seq<Property> {
    v.map_values(|s: String| spec_match_property(s@))
}

/// Maps every name to its property with `rayon`'s `par_iter().map(..).collect()`, which keeps
/// the order of the items.
#[verifier::external_body]
fn par_match_properties(v: &Vec<String>) -> (res: Vec<Property>)
    ensures
        res@ == properties_named(v@),
{
    v.par_iter().map(|i| match_property(i.as_str())).collect()
}

/// `new` is `old` with the `[view]` table `raw` applied.
#[verifier::opaque]
pub open spec fn view_applied(raw: RawView, old: ViewConf, new: ViewConf) -> bool {
    &&& new.explorer@ == match raw.explorer {
        Some(v) => properties_named(v@),
        None => old.explorer@,
    }
    &&& new.metadata@ == match raw.metadata {
        Some(v) => properties_named(v@),
        None => old.metadata@,
    }
    &&& new.dark_mode == match raw.dark_mode {
        Some(v) => v,
        None => old.dark_mode,
    }
    &&& new.view_hidden_files == match raw.view_hidden_files {
        Some(v) => v,
        None => old.view_hidden_files,
    }
    &&& new.format_date@ == match raw.format_date {
        Some(v) => v@,
        None => old.format_date@,
    }
    &&& new.info_toast_time == match raw.info_toast_time {
        Some(v) => v,
        None => old.info_toast_time,
    }
    &&& new.danger_toast_time == match raw.danger_toast_time {
        Some(v) => v,
        None => old.danger_toast_time,
    }
    &&& new.success_toast_time == match raw.success_toast_time {
        Some(v) => v,
        None => old.success_toast_time,
    }
}

/// Applies the `[view]` table.
pub fn process_raw_view(raw_config: &RawView, config: &mut ViewConf)
    ensures
        view_applied(*raw_config, *old(config), *final(config)),
{
    reveal(view_applied);
    match &raw_config.explorer {
        Some(v) => {
            config.explorer = par_match_properties(v);
        },
        None => {},
    }
    match &raw_config.metadata {
        Some(v) => {
            config.metadata = par_match_properties(v);
        },
        None => {},
    }
    match raw_config.dark_mode {
        Some(v) => {
            config.dark_mode = v;
        },
        None => {},
    }
    match raw_config.view_hidden_files {
        Some(v) => {
            config.view_hidden_files = v;
        },
        None => {},
    }
    match &raw_config.format_date {
        Some(v) => {
            config.format_date = text::owned(v.as_str());
        },
        None => {},
    }
    match raw_config.danger_toast_time {
        Some(v) => {
            config.danger_toast_time = v;
        },
        None => {},
    }
    match raw_config.info_toast_time {
        Some(v) => {
            config.info_toast_time = v;
        },
        None => {},
    }
    match raw_config.success_toast_time {
        Some(v) => {
            config.success_toast_time = v;
        },
        None => {},
    }
}

/// The clipboard behaviour a setting names: `replace` or `addition`; anything else means
/// replacing.
pub open spec fn spec_match_behav(i: Seq<char>) -> ClipboardBehaviour {
    if i == "replace"@ {
        ClipboardBehaviour::Replace
    } else if i == "addition"@ {
        ClipboardBehaviour::Addition
    } else {
        ClipboardBehaviour::Replace
    }
}

/// Reads a clipboard behaviour.
pub fn match_behav(i: &str) -> (res: ClipboardBehaviour)
    ensures
        res == spec_match_behav(i@),
{
    if text::str_eq(i, "replace") {
        ClipboardBehaviour::Replace
    } else if text::str_eq(i, "addition") {
        ClipboardBehaviour::Addition
    } else {
        ClipboardBehaviour::default()
    }
}

/// Applies the `[clipboard]` table.
pub fn process_raw_clipboard(raw_config: &RawClipboard, config: &mut ClipboardConf)
    ensures
        final(config).behaviour == match raw_config.behaviour {
            Some(i) => spec_match_behav(i@),
            None => old(config).behaviour,
        },
{
    match &raw_config.behaviour {
        Some(i) => {
            config.behaviour = match_behav(i.as_str());
        },
        None => {},
    }
}

/// Applies every table of the settings file that is present.
pub fn process_raw_config(raw_config: &RawConfig, config: &mut Config)
    ensures
        final(config).keybinds == match raw_config.keybinds {
            Some(k) => applied_keybinds(k, old(config).keybinds),
            None => old(config).keybinds,
        },
        final(config).sorting == match raw_config.sorting {
            Some(s) => applied_sorting(s, old(config).sorting),
            None => old(config).sorting,
        },
        match raw_config.view {
            Some(v) => view_applied(v, old(config).view, final(config).view),
            None => final(config).view == old(config).view,
        },
        final(config).clipboard.behaviour == match raw_config.clipboard {
            Some(c) => match c.behaviour {
                Some(i) => spec_match_behav(i@),
                None => old(config).clipboard.behaviour,
            },
            None => old(config).clipboard.behaviour,
        },
        final(config).keybinds_list == old(config).keybinds_list,
{
    let mut keybinds = config.keybinds;
    match &raw_config.keybinds {
        Some(table) => process_raw_keybinds(table, &mut keybinds),
        None => {},
    }
    let mut sorting = config.sorting;
    match &raw_config.sorting {
        Some(table) => process_raw_sorting(table, &mut sorting),
        None => {},
    }
    let mut clipboard = config.clipboard;
    match &raw_config.clipboard {
        Some(table) => process_raw_clipboard(table, &mut clipboard),
        None => {},
    }
    match &raw_config.view {
        Some(table) => process_raw_view(table, &mut config.view),
        None => {},
    }
    config.keybinds = keybinds;
    config.sorting = sorting;
    config.clipboard = clipboard;
}

/// Settles the settings: applies the settings file where one was read (`raw`), then lists the
/// bindings in the order they are tried, those with more modifiers first.
pub fn apply_settings(raw: Option<&RawConfig>, config: &mut Config)
    ensures
        final(config).keybinds == match raw {
            Some(r) => match r.keybinds {
                Some(k) => applied_keybinds(k, old(config).keybinds),
                None => old(config).keybinds,
            },
            None => old(config).keybinds,
        },
        final(config).sorting == match raw {
            Some(r) => match r.sorting {
                Some(s) => applied_sorting(s, old(config).sorting),
                None => old(config).sorting,
            },
            None => old(config).sorting,
        },
        match raw {
            Some(r) => match r.view {
                Some(v) => view_applied(v, old(config).view, final(config).view),
                None => final(config).view == old(config).view,
            },
            None => final(config).view == old(config).view,
        },
        final(config).clipboard.behaviour == match raw {
            Some(r) => match r.clipboard {
                Some(c) => match c.behaviour {
                    Some(i) => spec_match_behav(i@),
                    None => old(config).clipboard.behaviour,
                },
                None => old(config).clipboard.behaviour,
            },
            None => old(config).clipboard.behaviour,
        },
        keybinds_ordered(final(config).keybinds_list@, keybind_list(final(config).keybinds)),
{
    match raw {
        Some(r) => process_raw_config(r, config),
        None => {},
    }
    let keybinds = config.keybinds;
    listing_keybinds(&keybinds, &mut config.keybinds_list);
}

} // verus!
