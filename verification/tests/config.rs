use buoyant::app::Property;
use buoyant::config::{
    self, ClipboardBehaviour, ClipboardConf, Config, Key, KeybindAction, Keybinds, KeyboardShortcut,
    Modifiers, RawClipboard, RawConfig, RawKeybinds, RawSorting, RawView, Sorting, ViewConf,
};

fn mods(alt: bool, ctrl: bool, shift: bool) -> Modifiers {
    Modifiers { alt, ctrl, shift, mac_cmd: false, command: false }
}

fn shortcut(alt: bool, ctrl: bool, shift: bool, key: Key) -> KeyboardShortcut {
    KeyboardShortcut { modifiers: mods(alt, ctrl, shift), logical_key: key }
}

fn no_keybinds() -> RawKeybinds {
    RawKeybinds {
        navigate_up: None,
        navigate_down: None,
        navigate_forward: None,
        navigate_backward: None,
        copy_to_clipboard: None,
        cut_to_clipboard: None,
        paste_from_clipboard: None,
        clear_clipboard: None,
        delete_selections: None,
        rename_file: None,
        toggle_hidden_view: None,
        create_file_path: None,
        create_folder_path: None,
        toggle_visual_mode: None,
        refresh: None,
        view_info: None,
        search: None,
        choice_0: None,
        choice_1: None,
        choice_2: None,
        choice_3: None,
        choice_4: None,
        choice_5: None,
        choice_6: None,
        choice_7: None,
        choice_8: None,
        choice_9: None,
    }
}

fn no_view() -> RawView {
    RawView {
        explorer: None,
        metadata: None,
        format_date: None,
        dark_mode: None,
        view_hidden_files: None,
        info_toast_time: None,
        danger_toast_time: None,
        success_toast_time: None,
    }
}

#[test]
fn match_key_reads_the_documented_syntax() {
    assert_eq!(config::match_key("Ctrl + Shift + Q"), Some(shortcut(false, true, true, Key::Q)));
    assert_eq!(config::match_key("Alt + P"), Some(shortcut(true, false, false, Key::P)));
    assert_eq!(config::match_key("ArrowDown"), Some(shortcut(false, false, false, Key::ArrowDown)));
    assert_eq!(config::match_key("ctrl+alt+arrowup"), Some(shortcut(true, true, false, Key::ArrowUp)));
    assert_eq!(config::match_key("f12"), Some(shortcut(false, false, false, Key::F12)));
    assert_eq!(config::match_key("/"), Some(shortcut(false, false, false, Key::Slash)));
}

#[test]
fn match_key_is_case_insensitive() {
    assert_eq!(config::match_key("CTRL + SHIFT + Q"), config::match_key("ctrl + shift + q"));
    assert_eq!(config::match_key("ArrowDown"), config::match_key("arrowdown"));
}

#[test]
fn super_and_unknown_modifiers_add_nothing() {
    assert_eq!(config::match_key("Super + A"), Some(shortcut(false, false, false, Key::A)));
    assert_eq!(config::modifier_from_name("ctrl"), mods(false, true, false));
    assert_eq!(config::modifier_from_name("super"), mods(false, false, false));
    assert_eq!(config::key_from_name("enter"), Key::Enter);
    assert_eq!(config::key_from_name("numpad7"), Key::F35);
    assert_eq!(config::key_from_name("x"), Key::F35);
    assert_eq!(config::match_key("ctrl+x"), Some(shortcut(false, true, false, Key::F35)));
}

#[test]
fn default_keybinds_follow_the_readme_table() {
    let k = Keybinds::default();
    assert_eq!(k.navigate_up, shortcut(false, false, false, Key::ArrowUp));
    assert_eq!(k.navigate_backward, shortcut(false, false, false, Key::ArrowLeft));
    assert_eq!(k.copy_to_clipboard, shortcut(false, true, false, Key::C));
    assert_eq!(k.paste_from_clipboard, shortcut(false, true, false, Key::V));
    assert_eq!(k.clear_clipboard, shortcut(false, true, true, Key::V));
    assert_eq!(k.delete_selections, shortcut(false, false, false, Key::Delete));
    assert_eq!(k.rename_file, shortcut(false, false, false, Key::F2));
    assert_eq!(k.toggle_hidden_view, shortcut(false, true, false, Key::H));
    assert_eq!(k.create_file_path, shortcut(false, true, false, Key::N));
    assert_eq!(k.create_folder_path, shortcut(true, false, false, Key::N));
    assert_eq!(k.refresh, shortcut(false, true, false, Key::R));
    assert_eq!(k.view_info, shortcut(false, false, false, Key::F12));
    assert_eq!(k.search, shortcut(false, false, false, Key::Slash));
    assert_eq!(k.choice_0, shortcut(false, false, false, Key::Num0));
    assert_eq!(k.choice_9, shortcut(false, false, false, Key::Num9));
}

#[test]
fn modifiers_combine_and_count() {
    let both = Modifiers::ctrl().plus(Modifiers::shift());
    assert_eq!(both, mods(false, true, true));
    assert!(both.contains(Modifiers::ctrl()));
    assert!(!Modifiers::ctrl().contains(both));
    assert_eq!(config::count_mod(&both), 2);
    assert_eq!(config::count_mod(&Modifiers::none()), 0);
    assert_eq!(config::count_mod(&mods(true, true, true)), 3);
    assert_eq!(config::bind(both, Key::V), shortcut(false, true, true, Key::V));
}

#[test]
fn listing_puts_more_modifiers_first() {
    let mut list = Vec::new();
    config::listing_keybinds(&Keybinds::default(), &mut list);
    let actions: Vec<KeybindAction> = list.iter().map(|(a, _)| *a).collect();
    let expected = vec![
        KeybindAction::ClearClipboard,
        KeybindAction::Copy,
        KeybindAction::Cut,
        KeybindAction::Paste,
        KeybindAction::ToggleHidden,
        KeybindAction::CreateFile,
        KeybindAction::CreateFolder,
        KeybindAction::Refresh,
        KeybindAction::NavigateUp,
        KeybindAction::NavigateDown,
        KeybindAction::NavigateForward,
        KeybindAction::NavigateBackward,
        KeybindAction::Delete,
        KeybindAction::Rename,
        KeybindAction::ToggleVisual,
        KeybindAction::Search,
        KeybindAction::Info,
        KeybindAction::Choice(0),
        KeybindAction::Choice(1),
        KeybindAction::Choice(2),
        KeybindAction::Choice(3),
        KeybindAction::Choice(4),
        KeybindAction::Choice(5),
        KeybindAction::Choice(6),
        KeybindAction::Choice(7),
        KeybindAction::Choice(8),
        KeybindAction::Choice(9),
    ];
    assert_eq!(actions, expected);
    let in_order = config::keybinds_in_order(&Keybinds::default());
    assert_eq!(in_order.len(), 27);
    assert_eq!(in_order[7].0, KeybindAction::ClearClipboard);
}

#[test]
fn properties_and_behaviours_by_name() {
    assert_eq!(config::match_property("size"), Property::Size);
    assert_eq!(config::match_property("Accessed"), Property::Accessed);
    assert_eq!(config::match_property("PATH"), Property::Path);
    assert_eq!(config::match_property("weird"), Property::Name);
    assert_eq!(config::match_behav("addition"), ClipboardBehaviour::Addition);
    assert_eq!(config::match_behav("replace"), ClipboardBehaviour::Replace);
    assert_eq!(config::match_behav("add"), ClipboardBehaviour::Replace);
}

#[test]
fn defaults_of_the_settings() {
    let c = Config::default();
    assert_eq!(c.sorting, Sorting { sorting_by: Property::Name, reversed: false });
    assert_eq!(c.view.explorer, vec![Property::Name, Property::Size, Property::Type]);
    assert_eq!(c.view.format_date, "%d/%m/%Y, %I:%M:%S %p");
    assert_eq!((c.view.info_toast_time, c.view.danger_toast_time, c.view.success_toast_time), (5000, 7000, 3000));
    assert_eq!(c.clipboard.behaviour, ClipboardBehaviour::Replace);
    assert!(c.should_fetch(Property::Size));
    assert!(c.should_fetch(Property::Name));
    assert!(!c.should_fetch(Property::Accessed));
}

#[test]
fn raw_tables_are_applied() {
    let mut sorting = Sorting::default();
    config::process_raw_sorting(&RawSorting { sorting_by: Some(String::from("size")), reversed: None }, &mut sorting);
    assert_eq!(sorting, Sorting { sorting_by: Property::Size, reversed: false });

    let mut view = ViewConf::default();
    let mut raw = no_view();
    raw.explorer = Some(vec![String::from("name"), String::from("created")]);
    raw.dark_mode = Some(true);
    raw.info_toast_time = Some(100);
    config::process_raw_view(&raw, &mut view);
    assert_eq!(view.explorer, vec![Property::Name, Property::Created]);
    assert!(view.dark_mode);
    assert_eq!(view.info_toast_time, 100);
    assert_eq!(view.danger_toast_time, 7000);

    let mut clip = ClipboardConf::default();
    config::process_raw_clipboard(&RawClipboard { behaviour: Some(String::from("addition")) }, &mut clip);
    assert_eq!(clip.behaviour, ClipboardBehaviour::Addition);

    let mut keys = Keybinds::default();
    let mut rk = no_keybinds();
    rk.search = Some(String::from("Ctrl + F"));
    config::process_raw_keybinds(&rk, &mut keys);
    assert_eq!(keys.search, shortcut(false, true, false, Key::F));
    assert_eq!(keys.refresh, Keybinds::default().refresh);
}

#[test]
fn a_whole_settings_file() {
    let mut c = Config::default();
    let mut rk = no_keybinds();
    rk.refresh = Some(String::from("F5"));
    let raw = RawConfig {
        keybinds: Some(rk),
        sorting: Some(RawSorting { sorting_by: None, reversed: Some(true) }),
        view: None,
        clipboard: None,
    };
    config::process_raw_config(&raw, &mut c);
    assert_eq!(c.keybinds.refresh, shortcut(false, false, false, Key::F5));
    assert!(c.sorting.reversed);
    assert_eq!(c.view.explorer, vec![Property::Name, Property::Size, Property::Type]);
    assert!(c.keybinds_list.is_empty());
    config::apply_settings(Some(&raw), &mut c);
    assert_eq!(c.keybinds_list.len(), 27);
    assert_eq!(c.keybinds_list[0].0, KeybindAction::ClearClipboard);
    // refresh lost its modifier, so it is tried with the unmodified bindings
    let refresh_at = c.keybinds_list.iter().position(|(a, _)| *a == KeybindAction::Refresh).unwrap();
    assert_eq!(refresh_at, 14);

    let mut d = Config::default();
    config::apply_settings(None, &mut d);
    assert_eq!(d.keybinds, Keybinds::default());
    assert_eq!(d.keybinds_list.len(), 27);
}

#[test]
fn lower_cased_names() {
    assert_eq!(config::property_from_name("size"), Property::Size);
    assert_eq!(config::property_from_name("Size"), Property::Name);
    assert_eq!(config::shortcut_from_pieces("ctrl + shift + q", "q"), shortcut(false, true, true, Key::Q));
    assert_eq!(config::shortcut_from_pieces("alt+arrowup", "arrowup"), shortcut(true, false, false, Key::ArrowUp));
    assert_eq!(config::shortcut_from_pieces("f5", "f5"), shortcut(false, false, false, Key::F5));
}

#[test]
fn settings_ignore_ascii_case() {
    assert_eq!(config::match_key("CTRL + SHIFT + Q"), config::match_key("ctrl + shift + q"));
    assert_eq!(config::match_key("Ctrl+V"), Some(shortcut(false, true, false, Key::V)));
    for p in [Property::Name, Property::Accessed, Property::Created, Property::Type, Property::Size, Property::Path] {
        let label = p.label();
        assert_eq!(config::match_property(&label), p);
        assert_eq!(config::match_property(&label.to_uppercase()), p);
    }
    assert_eq!(config::match_property("colour"), Property::Name);
}
