use buoyant::app::{ClipboardMode, Entry, ToastKind};
use buoyant::clipboard::ClipboardManager;
use buoyant::config::{self, ClipboardBehaviour, Config, Key, KeybindAction, Keybinds, Modifiers, ViewConf};
use buoyant::file::icons::IconKind;
use buoyant::input::{self, ClipboardEvent};
use buoyant::theme::{self, HexError};
use buoyant::toasts::{self, ToastBoard};
use buoyant::types::Entries;

fn mods(alt: bool, ctrl: bool, shift: bool, mac_cmd: bool, command: bool) -> Modifiers {
    Modifiers { alt, ctrl, shift, mac_cmd, command }
}

fn strings(v: &[&str]) -> Vec<String> {
    v.iter().map(|s| String::from(*s)).collect()
}

fn summary(board: &ToastBoard) -> Vec<(String, i8, u64)> {
    board.toasts.iter().map(|t| (t.title.clone(), t.count, t.id)).collect()
}

#[test]
fn toast_durations() {
    let view = ViewConf::default();
    assert_eq!(toasts::toast_duration(&ToastKind::Info, &view), Some(5000));
    assert_eq!(toasts::toast_duration(&ToastKind::Danger, &view), Some(7000));
    assert_eq!(toasts::toast_duration(&ToastKind::Success, &view), Some(3000));
    assert_eq!(toasts::toast_duration(&ToastKind::Operation, &view), None);
}

#[test]
fn toasts_count_and_keep_operations_last() {
    let mut b = ToastBoard::new();
    assert_eq!(b.raise("Clipboard", "x", ToastKind::Info, 1), 1);
    assert_eq!(b.raise("Pasting", "p", ToastKind::Operation, 2), 2);
    assert_eq!(b.raise("Delete", "d", ToastKind::Danger, 3), 3);
    assert_eq!(b.raise("Clipboard", "x", ToastKind::Info, 4), 1);
    assert_eq!(
        summary(&b),
        vec![(String::from("Clipboard"), 2, 1), (String::from("Delete"), 1, 3), (String::from("Pasting"), 1, 2)]
    );
    assert_eq!(toasts::toast_heading(&b.toasts[0]), "Clipboard (x2)");
    b.expire(1);
    assert_eq!(b.toasts[0].count, 1);
    b.expire(1);
    assert_eq!(summary(&b), vec![(String::from("Delete"), 1, 3), (String::from("Pasting"), 1, 2)]);
    b.finish(2);
    assert_eq!(summary(&b), vec![(String::from("Delete"), 1, 3)]);
    b.expire(99);
    assert_eq!(b.toasts.len(), 1);
}

#[test]
fn operation_notes() {
    assert_eq!(toasts::operation_content(true, 3), "Moving 3 items");
    assert_eq!(toasts::operation_content(false, 1), "Pasting 1 items");
}

#[test]
fn raise_then_expire_restores_the_board() {
    let mut b = ToastBoard::new();
    b.raise("A", "a", ToastKind::Info, 1);
    b.raise("B", "b", ToastKind::Success, 2);
    let before = summary(&b);
    let id = b.raise("A", "a", ToastKind::Info, 7);
    assert_eq!(id, 1);
    b.expire(id);
    assert_eq!(summary(&b), before);
}

#[test]
fn clipboard_holds_each_path_once() {
    let mut c = ClipboardManager::new();
    c.add_to_clipboard(&ClipboardBehaviour::Replace, ClipboardMode::Copy, &strings(&["/a", "/b", "/a/"]));
    assert_eq!(c.entries, strings(&["/a", "/b"]));
    assert_eq!(c.mode, Some(ClipboardMode::Copy));
    c.add_to_clipboard(&ClipboardBehaviour::Addition, ClipboardMode::Cut, &strings(&["/c", "/b"]));
    assert_eq!(c.entries, strings(&["/a", "/b", "/c"]));
    assert_eq!(c.mode, Some(ClipboardMode::Cut));
    c.add_to_clipboard(&ClipboardBehaviour::Addition, ClipboardMode::Cut, &strings(&["/c", "/b"]));
    assert_eq!(c.entries, strings(&["/a", "/b", "/c"]));
    c.add_to_clipboard(&ClipboardBehaviour::Replace, ClipboardMode::Copy, &strings(&["/z"]));
    assert_eq!(c.entries, strings(&["/z"]));
    assert!(c.contains("/z/"));
    assert!(!c.contains("/a"));
}

#[test]
fn clipboard_paste_and_icons() {
    let mut c = ClipboardManager::new();
    assert!(c.paste_job().is_none());
    c.add_to_clipboard(&ClipboardBehaviour::Replace, ClipboardMode::Copy, &strings(&["/z"]));
    let (mode, paths) = c.paste_job().unwrap();
    assert_eq!(mode, ClipboardMode::Copy);
    assert_eq!(paths, strings(&["/z"]));
    let on = Entry { path: String::from("/z"), file_icon: IconKind::File, ..Entry::default() };
    let off = Entry { path: String::from("/y"), file_icon: IconKind::Image, ..Entry::default() };
    assert_eq!(c.entry_icon(&on), IconKind::Copy);
    assert_eq!(c.entry_icon(&off), IconKind::Image);
    c.pasted();
    assert_eq!(c.entries.len(), 1);
    c.add_to_clipboard(&ClipboardBehaviour::Replace, ClipboardMode::Cut, &strings(&["/z"]));
    assert_eq!(c.entry_icon(&on), IconKind::Scissors);
    c.pasted();
    assert!(c.entries.is_empty());
    assert_eq!(c.mode, None);
    c.add_to_clipboard(&ClipboardBehaviour::Replace, ClipboardMode::Cut, &strings(&["/q"]));
    c.reset();
    assert!(c.entries.is_empty());
    assert_eq!(c.mode, None);
}

#[test]
fn modifiers_match_as_egui_documents() {
    let ctrl = mods(false, true, false, false, false);
    let shift = mods(false, false, true, false, false);
    let command = mods(false, false, false, false, true);
    let mac_cmd = mods(false, false, false, true, false);
    assert!(input::matches_logically(ctrl, ctrl));
    assert!(!input::matches_logically(ctrl, ctrl.plus(shift)));
    assert!(input::matches_logically(ctrl.plus(shift), ctrl));
    assert!(input::matches_logically(ctrl.plus(command), ctrl));
    assert!(input::matches_logically(ctrl.plus(command), command));
    assert!(input::matches_logically(mac_cmd.plus(command), command));
    assert!(!input::matches_logically(command, mac_cmd));
}

#[test]
fn the_first_binding_that_fires_wins() {
    let mut list = Vec::new();
    config::listing_keybinds(&Keybinds::default(), &mut list);
    let none = Modifiers::none();
    let ctrl = Modifiers::ctrl();
    let ctrl_shift = ctrl.plus(Modifiers::shift());
    assert_eq!(input::resolve_action(&list, ctrl_shift, &vec![], &vec![Key::V]), Some(KeybindAction::ClearClipboard));
    assert_eq!(input::resolve_action(&list, ctrl, &vec![], &vec![Key::V]), Some(KeybindAction::Paste));
    assert_eq!(input::resolve_action(&list, none, &vec![], &vec![Key::V]), Some(KeybindAction::ToggleVisual));
    assert_eq!(input::resolve_action(&list, ctrl, &vec![ClipboardEvent::Paste], &vec![]), Some(KeybindAction::Paste));
    assert_eq!(input::resolve_action(&list, ctrl, &vec![ClipboardEvent::Copy], &vec![]), Some(KeybindAction::Copy));
    assert_eq!(input::resolve_action(&list, none, &vec![], &vec![Key::ArrowDown]), Some(KeybindAction::NavigateDown));
    assert_eq!(input::resolve_action(&list, none, &vec![], &vec![Key::Num3]), Some(KeybindAction::Choice(3)));
    assert_eq!(input::resolve_action(&list, none, &vec![], &vec![]), None);
    assert!(input::key_pressed(&vec![Key::A, Key::B], Key::B));
    assert!(!input::key_pressed(&vec![Key::A], Key::B));
    let c = Config::default();
    assert!(c.keybinds_list.is_empty());
}

#[test]
fn colours_in_hexadecimal() {
    assert_eq!(theme::hex_to_rgba("#ff8000"), Ok((255, 128, 0, 255)));
    assert_eq!(theme::hex_to_rgba("ff800080"), Ok((255, 128, 0, 128)));
    assert_eq!(theme::hex_to_rgba("##00ff00"), Ok((0, 255, 0, 255)));
    assert_eq!(theme::hex_to_rgba("#fff"), Ok((0, 0, 15, 255)));
    assert_eq!(theme::hex_to_rgba("+00ff00"), Ok((0, 0, 255, 0)));
    assert_eq!(theme::hex_to_rgba("#ABCDEF"), Ok((0xab, 0xcd, 0xef, 255)));
}

#[test]
fn colours_that_cannot_be_read() {
    assert_eq!(theme::hex_to_rgba(""), Err(HexError::Empty));
    assert_eq!(theme::hex_to_rgba("#"), Err(HexError::Empty));
    assert_eq!(theme::hex_to_rgba("#zz0000"), Err(HexError::InvalidDigit));
    assert_eq!(theme::hex_to_rgba("+"), Err(HexError::InvalidDigit));
    assert_eq!(theme::hex_to_rgba("-1"), Err(HexError::InvalidDigit));
    assert_eq!(theme::hex_to_rgba("123456789"), Err(HexError::PosOverflow));
    assert_eq!(theme::hex_to_rgba("ffffffff"), Ok((255, 255, 255, 255)));
    let digits: Vec<char> = "1f".chars().collect();
    assert_eq!(theme::parse_hex(&digits), Ok(31));
}

#[test]
fn entries_of_the_first_layout() {
    let mut e = Entries::default();
    assert_eq!(e.children.len(), 31);
    assert!(e.displaying.is_empty());
    e.children[4].name = String::from("four");
    e.displaying = vec![4, 40];
    assert_eq!(e.entry(&0).unwrap().name, "four");
    assert!(e.entry(&1).is_none());
}
