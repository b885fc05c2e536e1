use buoyant::app::{
    self, AppendDirection, ChoiceOutcome, ClipboardMode, Command, EntriesManager, Field, FieldKind,
    NavigateDirection, Overlay, OverlayKind, Panel, Position, Property, TempEntry, ToastKind,
    WindowKind, WindowsManager,
};
use buoyant::config::{KeybindAction, Sorting, ViewConf};
use buoyant::file::icons::IconKind;
use buoyant::file::PasteKind;

fn temp<'a>(name: &'a str, path: &'a str, hidden: bool, size: u64) -> TempEntry<'a> {
    TempEntry {
        name,
        file_type: "Text File",
        file_icon: IconKind::File,
        path,
        is_hidden: hidden,
        accessed: None,
        created: None,
        file_size: Some(size),
        folder_size: None,
    }
}

fn by(p: Property, reversed: bool) -> Sorting {
    Sorting { sorting_by: p, reversed }
}

fn loaded(view_hidden: bool, sorting: &Sorting) -> Panel {
    let found = vec![
        temp("b.txt", "/h/b.txt", false, 10),
        temp("A.txt", "/h/A.txt", false, 30),
        temp(".hidden", "/h/.hidden", true, 20),
    ];
    let mut panel = Panel::new("/h");
    panel.load_entries(&found, view_hidden, sorting);
    panel
}

#[test]
fn windows_toggle() {
    let mut w = WindowsManager::default();
    assert_eq!(w.clipboard, None);
    w.toggle(WindowKind::Clipboard);
    assert_eq!(w.clipboard, Some(true));
    w.toggle(WindowKind::Clipboard);
    assert_eq!(w.clipboard, None);
    w.toggle(WindowKind::Clipboard);
    w.close(WindowKind::Clipboard);
    assert_eq!(w.clipboard, None);
}

#[test]
fn labels() {
    assert_eq!(ClipboardMode::Copy.label(), "copy");
    assert_eq!(ClipboardMode::Cut.label(), "cut");
    assert_eq!(Property::Accessed.label(), "accessed");
    assert_eq!(Position { r: 2, c: 13 }.label(), "(2, 13)");
    assert_eq!(Property::default(), Property::Name);
}

#[test]
fn positions_of_new_panels() {
    let p = Position { r: 3, c: 4 };
    assert_eq!(p.appended(&AppendDirection::Right, true), Position { r: 3, c: 5 });
    assert_eq!(p.appended(&AppendDirection::Down, true), Position { r: 4, c: 4 });
    assert_eq!(p.appended(&AppendDirection::Up, true), Position { r: 0, c: 4 });
    assert_eq!(p.appended(&AppendDirection::Left, true), Position { r: 3, c: 0 });
    assert_eq!(p.appended(&AppendDirection::Left, false), p);
}

#[test]
fn overlay_and_field() {
    let mut o = Overlay::default();
    o.open(OverlayKind::Rename, Some("/h/notes.txt"));
    assert_eq!(o.kind, Some(OverlayKind::Rename));
    assert_eq!(o.buffer, "notes.txt");
    assert_eq!(o.path.as_deref(), Some("/h/notes.txt"));
    o.buffer(String::from("  a/b "));
    assert!(!o.check_rename());
    assert_eq!(o.error, "Containing invalid characters!");
    o.buffer(String::from(" fine.txt "));
    assert!(o.check_rename());
    o.buffer(String::from("  /deep/path "));
    assert_eq!(o.create_input(), "deep/path");
    assert_eq!(o.finalize_choice(0), ChoiceOutcome::Nothing);
    assert_eq!(o.kind, None);
    assert_eq!(o.buffer, "");
    assert_eq!(o.error, "");

    o.open(OverlayKind::Paste, Some("/h/x"));
    assert_eq!(o.finalize_choice(1), ChoiceOutcome::Respond(PasteKind::Duplicate));
    o.open(OverlayKind::Paste, None);
    assert_eq!(o.finalize_choice(0), ChoiceOutcome::Respond(PasteKind::Replace));
    o.open(OverlayKind::Delete, None);
    assert_eq!(o.finalize_choice(1), ChoiceOutcome::Nothing);
    o.open(OverlayKind::Delete, None);
    assert_eq!(o.finalize_choice(0), ChoiceOutcome::Delete);
    o.open(OverlayKind::CreateFile, None);
    assert!(!o.check_rename());

    let mut f = Field::default();
    f.buffer(String::from("abc"));
    f.unfocus();
    assert_eq!(f.buffer, "abc");
    f.reset();
    assert_eq!(f.buffer, "");
    assert_eq!(f.kind, None);
    assert!(!f.focused);
}

#[test]
fn banned_characters() {
    assert!(app::has_banned_characters("a/b"));
    assert!(app::has_banned_characters("a*b"));
    assert!(app::has_banned_characters("a\"b"));
    assert!(app::has_banned_characters("a\0b"));
    assert!(!app::has_banned_characters("plain name.txt"));
}

#[test]
fn plans_for_actions() {
    let p = app::plan_action(&KeybindAction::Copy, false, false, 0);
    assert_eq!(p.command, Command::Nothing);
    let t = p.toast.unwrap();
    assert_eq!((t.title, t.content.as_str(), t.kind), ("Clipboard", "nothing is selected to be copied!", ToastKind::Info));

    let p = app::plan_action(&KeybindAction::Cut, false, false, 3);
    assert_eq!(p.command, Command::AddToClipboard(ClipboardMode::Cut));
    let t = p.toast.unwrap();
    assert_eq!((t.title, t.content.as_str(), t.kind), ("Clipboard", "successfully added 3 items into clipboard!", ToastKind::Success));

    let p = app::plan_action(&KeybindAction::Delete, false, false, 2);
    assert_eq!(p.command, Command::OpenOverlay(OverlayKind::Delete));
    assert!(p.toast.is_none());
    let p = app::plan_action(&KeybindAction::Delete, false, false, 0);
    assert_eq!(p.toast.unwrap().content, "nothing is selected to be deleted!");

    assert_eq!(app::plan_action(&KeybindAction::Choice(1), true, false, 0).command, Command::FinalizeChoice(1));
    assert_eq!(app::plan_action(&KeybindAction::Copy, true, false, 4).command, Command::Nothing);
    assert_eq!(app::plan_action(&KeybindAction::Refresh, false, true, 0).command, Command::Nothing);
    assert_eq!(app::plan_action(&KeybindAction::NavigateUp, false, false, 0).command, Command::Navigate(NavigateDirection::Up));
    let clear = app::plan_action(&KeybindAction::ClearClipboard, false, false, 0);
    assert_eq!(clear.command, Command::ClearClipboard);
    assert_eq!(clear.toast.unwrap().title, "Success!");
    assert_eq!(app::plan_action(&KeybindAction::ToggleVisual, false, false, 0).command, Command::Nothing);
}

#[test]
fn entries_manager_push_and_entry() {
    let mut m = EntriesManager::default();
    assert_eq!(m.entries.len(), 31);
    m.push(&temp("x", "/h/x", false, 1), 0);
    assert_eq!(m.entries[0].name, "x");
    assert_eq!(m.entries[0].path, "/h/x");
    assert!(m.entries[0].using);
    m.push(&temp("y", "/h/y", false, 1), 40);
    assert_eq!(m.entries.len(), 32);
    assert_eq!(m.entries[31].name, "y");
    m.displaying = vec![31, 0, 99];
    assert_eq!(m.entry(&0).unwrap().name, "y");
    assert!(m.entry(&2).is_none());
}

#[test]
fn entries_sort_by_each_property() {
    let mut m = EntriesManager::default();
    m.entries.clear();
    m.push(&temp("b", "/b", false, 10), 0);
    m.push(&temp("C", "/c", false, 5), 1);
    m.push(&temp("a", "/a", false, 10), 2);
    m.push(&temp("z", "/z", true, 1), 3);
    m.displaying = vec![0, 1, 2, 3];
    m.sort(&Property::Name, false);
    assert_eq!(m.displaying, vec![3, 2, 0, 1]);
    m.sort(&Property::Name, true);
    assert_eq!(m.displaying, vec![3, 1, 0, 2]);
    m.displaying = vec![0, 1, 2, 3];
    m.sort(&Property::Size, false);
    assert_eq!(m.displaying, vec![3, 1, 0, 2]);
    m.displaying = vec![0, 1, 2, 3];
    m.sort(&Property::Path, false);
    assert_eq!(m.displaying, vec![3, 2, 0, 1]);
    m.displaying = vec![0, 1, 2, 3];
    m.sort(&Property::Path, true);
    assert_eq!(m.displaying, vec![3, 1, 0, 2]);
}

#[test]
fn panels_list_filter_and_sort() {
    let p = loaded(false, &by(Property::Name, false));
    assert_eq!(p.entries_manager.displaying, vec![1, 0]);
    assert_eq!(p.entries_manager.current_index, 0);
    let p = loaded(true, &by(Property::Name, false));
    assert_eq!(p.entries_manager.displaying, vec![2, 1, 0]);
    let p = loaded(false, &by(Property::Size, false));
    assert_eq!(p.entries_manager.displaying, vec![0, 1]);
    let p = loaded(false, &by(Property::Size, true));
    assert_eq!(p.entries_manager.displaying, vec![1, 0]);
    assert_eq!(p.listed_entries(false), vec![0, 1]);
    assert_eq!(p.listed_entries(true), vec![0, 1, 2]);
    assert_eq!(p.current_entry().name, "A.txt");
}

#[test]
fn panels_search() {
    let sorting = by(Property::Name, false);
    let mut p = loaded(false, &sorting);
    p.new_field(&FieldKind::Search, false, &sorting);
    assert!(p.field.focused);
    assert_eq!(p.field.kind, Some(FieldKind::Search));
    p.buffer_field(String::from(" b. "));
    p.logic_field(&FieldKind::Search, false, &sorting);
    assert_eq!(p.entries_manager.displaying, vec![0]);
    p.unfocus_field();
    assert!(!p.field.focused);
    p.close_field(false, &sorting);
    assert_eq!(p.field.kind, None);
    assert_eq!(p.entries_manager.displaying, vec![1, 0]);
}

#[test]
fn panels_select() {
    let sorting = by(Property::Name, false);
    let mut p = loaded(true, &sorting);
    // displaying: [2 (.hidden), 1 (A.txt), 0 (b.txt)]
    p.modify_selected(1, false, false);
    let mut s: Vec<usize> = p.selected.iter().copied().collect();
    s.sort();
    assert_eq!(s, vec![1]);
    assert_eq!(p.entries_manager.current_index, 1);
    p.modify_selected(2, true, false);
    let mut s: Vec<usize> = p.selected.iter().copied().collect();
    s.sort();
    assert_eq!(s, vec![0, 1]);
    p.modify_selected(2, true, false);
    let s: Vec<usize> = p.selected.iter().copied().collect();
    assert_eq!(s, vec![1]);
    p.modify_selected(0, false, true);
    let mut s: Vec<usize> = p.selected.iter().copied().collect();
    s.sort();
    assert_eq!(s, vec![0, 1, 2]);
    p.clear_selected();
    assert!(p.selected.is_empty());
    p.swap_selected(&2);
    let s: Vec<usize> = p.selected.iter().copied().collect();
    assert_eq!(s, vec![0]);
    p.swap_selected(&1);
    let s: Vec<usize> = p.selected.iter().copied().collect();
    assert_eq!(s, vec![1]);
    assert_eq!(p.entries_manager.current_index, 1);
}

#[test]
fn panels_navigate_and_highlight() {
    let sorting = by(Property::Name, false);
    let mut p = loaded(true, &sorting);
    p.navigate_index(&NavigateDirection::Down, false, false);
    assert_eq!(p.entries_manager.current_index, 1);
    p.navigate_index(&NavigateDirection::Down, false, false);
    p.navigate_index(&NavigateDirection::Down, false, false);
    assert_eq!(p.entries_manager.current_index, 2);
    let s: Vec<usize> = p.selected.iter().copied().collect();
    assert_eq!(s, vec![0]);
    p.navigate_index(&NavigateDirection::Up, false, true);
    let mut s: Vec<usize> = p.selected.iter().copied().collect();
    s.sort();
    assert_eq!(s, vec![0, 1]);
    assert_eq!(p.selected_paths().len(), 2);
    p.highlight_path("/h/.hidden");
    assert_eq!(p.entries_manager.current_index, 0);
    assert!(p.entries_manager.scroll_signal);
    p.highlight_path("/nowhere");
    assert_eq!(p.entries_manager.current_index, 0);
}

#[test]
fn panels_transfer_and_restore() {
    let sorting = by(Property::Name, false);
    let mut p = loaded(true, &sorting);
    p.modify_selected(1, false, false);
    assert_eq!(p.transfer_plan(1), None);
    let (from, to) = p.transfer_plan(0).unwrap();
    assert_eq!(from, vec![String::from("/h/A.txt")]);
    assert_eq!(to, "/h/b.txt");
    p.clear_selected();
    p.restore_selection(&vec![String::from("/h//b.txt"), String::from("/h/gone")]);
    let s: Vec<usize> = p.selected.iter().copied().collect();
    assert_eq!(s, vec![0]);
}

#[test]
fn toggling_hidden_keeps_the_selection() {
    let sorting = by(Property::Name, false);
    let mut p = loaded(false, &sorting);
    // displaying: [1 (A.txt), 0 (b.txt)]
    p.modify_selected(1, false, false);
    let s: Vec<usize> = p.selected.iter().copied().collect();
    assert_eq!(s, vec![0]);
    p.toggle_view_hidden(true, &sorting);
    assert_eq!(p.entries_manager.displaying, vec![2, 1, 0]);
    let s: Vec<usize> = p.selected.iter().copied().collect();
    assert_eq!(s, vec![0]);
    assert_eq!(p.entries_manager.current_index, 0);
}

#[test]
fn toggle_hidden_view_flips_the_setting() {
    let sorting = by(Property::Name, false);
    let mut p = loaded(false, &sorting);
    let mut view = ViewConf::default();
    assert!(!view.view_hidden_files);
    app::toggle_hidden_view(&mut view, &mut p, &sorting);
    assert!(view.view_hidden_files);
    assert_eq!(p.entries_manager.displaying, vec![2, 1, 0]);
    app::toggle_hidden_view(&mut view, &mut p, &sorting);
    assert!(!view.view_hidden_files);
    assert_eq!(p.entries_manager.displaying, vec![1, 0]);
    assert_eq!(view.format_date, ViewConf::default().format_date);
}

#[test]
fn metadata_reads_only_what_is_missing() {
    let mut known = app::Entry::default();
    known.name = String::from("n");
    known.path = String::from("/h/n");
    known.file_type = "Text File";
    known.accessed = Some(1);
    known.created = Some(2);
    known.file_size = Some(3);
    known.folder_size = Some(4);
    assert_eq!(app::metadata_needs(&known), (false, false));
    let e = app::metadata_entry(&known, (Some(9), Some(9)), (Some(9), Some(9)));
    assert_eq!((e.accessed, e.created, e.file_size, e.folder_size), (Some(1), Some(2), Some(3), Some(4)));
    assert_eq!((e.name.as_str(), e.path.as_str(), e.file_type), ("n", "/h/n", "Text File"));
    assert_eq!(e.file_icon, IconKind::QuestionMark);

    let mut bare = known.clone();
    bare.created = None;
    bare.file_size = None;
    assert_eq!(app::metadata_needs(&bare), (true, true));
    let e = app::metadata_entry(&bare, (Some(7), Some(8)), (Some(5), None));
    assert_eq!((e.accessed, e.created, e.file_size, e.folder_size), (Some(7), Some(8), Some(5), None));
}

#[test]
fn refreshing_twice_shows_the_same_listing() {
    let sorting = by(Property::Size, false);
    let mut p = loaded(true, &sorting);
    let first = p.entries_manager.displaying.clone();
    p.filter_and_sort(true, &sorting);
    assert_eq!(p.entries_manager.displaying, first);
    p.filter_and_sort(true, &sorting);
    assert_eq!(p.entries_manager.displaying, first);
}

#[test]
fn descending_is_ascending_reversed_per_group() {
    let mut m = EntriesManager::default();
    m.entries.clear();
    m.push(&temp("b", "/b", false, 10), 0);
    m.push(&temp(".y", "/.y", true, 2), 1);
    m.push(&temp("a", "/a", false, 10), 2);
    m.push(&temp(".x", "/.x", true, 1), 3);
    m.push(&temp("c", "/c", false, 5), 4);
    m.displaying = vec![0, 1, 2, 3, 4];
    m.sort(&Property::Size, false);
    let up = m.displaying.clone();
    assert_eq!(up, vec![3, 1, 4, 0, 2]);
    m.displaying = vec![0, 1, 2, 3, 4];
    m.sort(&Property::Size, true);
    assert_eq!(m.displaying, vec![1, 3, 2, 0, 4]);
}

#[test]
fn cursor_down_then_up() {
    let sorting = by(Property::Name, false);
    let mut p = loaded(true, &sorting);
    p.modify_selected(1, false, false);
    p.navigate_index(&NavigateDirection::Down, false, false);
    p.navigate_index(&NavigateDirection::Up, false, false);
    assert_eq!(p.entries_manager.current_index, 1);
    p.navigate_index(&NavigateDirection::Down, false, false);
    p.navigate_index(&NavigateDirection::Down, false, false);
    p.navigate_index(&NavigateDirection::Up, false, false);
    assert_eq!(p.entries_manager.current_index, 1);
}
