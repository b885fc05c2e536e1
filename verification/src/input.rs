//! Which action the keys pressed in a frame call for.

use crate::config::{Key, Keybind, KeybindAction, Modifiers};
use vstd::prelude::*;

verus! {

/// A clipboard event of a frame, which stands for control and a key.
#[derive(Clone, Copy, Debug, PartialEq, Eq, Structural)]
pub enum ClipboardEvent {
    Copy,
    Cut,
    Paste,
}

/// `held` matches the modifiers of `pattern` as a shortcut wants them: alt and shift where the
/// pattern has them (more may be held), and control and command as `egui`'s
/// `Modifiers::matches_logically` compares them.
pub open spec fn spec_matches_logically(held: Modifiers, pattern: Modifiers) -> bool {
    if pattern.alt && !held.alt {
        false
    } else if pattern.shift && !held.shift {
        false
    } else if pattern.mac_cmd {
        held.mac_cmd && pattern.ctrl == held.ctrl
    } else if !pattern.ctrl && !pattern.command {
        !held.ctrl && !held.command
    } else {
        (pattern.ctrl ==> held.ctrl) && (pattern.command ==> held.command)
    }
}

/// Whether the held modifiers `held` match `pattern`.
pub fn matches_logically(held: Modifiers, pattern: Modifiers) -> (res: bool)
    ensures
        res == spec_matches_logically(held, pattern),
{
    if pattern.alt && !held.alt {
        return false;
    }
    if pattern.shift && !held.shift {
        return false;
    }
    if pattern.mac_cmd {
        return held.mac_cmd && pattern.ctrl == held.ctrl;
    }
    if !pattern.ctrl && !pattern.command {
        return !held.ctrl && !held.command;
    }
    (!pattern.ctrl || held.ctrl) && (!pattern.command || held.command)
}

/// The key a clipboard event stands for.
pub open spec fn event_key(e: ClipboardEvent) -> Key {
    match e {
        ClipboardEvent::Copy => Key::C,
        ClipboardEvent::Cut => Key::X,
        ClipboardEvent::Paste => Key::V,
    }
}

/// The modifiers a frame's shortcuts are matched with: those held, and control where a
/// clipboard event came.
pub open spec fn frame_modifiers(held: Modifiers, events: Seq<ClipboardEvent>) -> Modifiers {
    if events.len() > 0 {
        held.spec_plus(Modifiers { alt: false, ctrl: true, shift: false, mac_cmd: false, command: false })
    } else {
        held
    }
}

/// The key the last clipboard event of a frame stands for.
pub open spec fn frame_key(events: Seq<ClipboardEvent>) -> Option<Key> {
    if events.len() > 0 {
        Some(event_key(events.last()))
    } else {
        None
    }
}

/// A binding fires when the held modifiers match the frame's modifiers with the binding's own,
/// and its key is the one a clipboard event stands for or was pressed in the frame.
pub open spec fn fires(
    b: Keybind,
    held: Modifiers,
    events: Seq<ClipboardEvent>,
    pressed: Seq<Key>,
) -> bool {
    &&& spec_matches_logically(held, frame_modifiers(held, events).spec_plus(b.1.modifiers))
    &&& (frame_key(events) == Some(b.1.logical_key) || pressed.contains(b.1.logical_key))
}

/// The action of the first binding of `list` that fires, if one does.
pub fn resolve_action(
    list: &Vec<Keybind>,
    held: Modifiers,
    events: &Vec<ClipboardEvent>,
    pressed: &Vec<Key>,
) -> (res: Option<KeybindAction>)
    ensures
        match res {
            Some(a) => exists|i: int|
                0 <= i < list@.len() && fires(#[trigger] list@[i], held, events@, pressed@)
                    && list@[i].0 == a && forall|j: int|
                    0 <= j < i ==> !fires(#[trigger] list@[j], held, events@, pressed@),
            None => forall|j: int|
                0 <= j < list@.len() ==> !fires(#[trigger] list@[j], held, events@, pressed@),
        },
{
    let mut base = held;
    let mut key: Option<Key> = None;
    let mut e: usize = 0;
    while e < events.len()
        invariant
            e <= events.len(),
            base == frame_modifiers(held, events@.subrange(0, e as int)),
            key == frame_key(events@.subrange(0, e as int)),
        decreases events.len() - e,
    {
        base = base.plus(Modifiers::ctrl());
        key = Some(
            match events[e] {
                ClipboardEvent::Copy => Key::C,
                ClipboardEvent::Cut => Key::X,
                ClipboardEvent::Paste => Key::V,
            },
        );
        assert(events@.subrange(0, e + 1).last() == events@[e as int]);
        e = e + 1;
    }
    assert(events@.subrange(0, events.len() as int) =~= events@);
    let mut i: usize = 0;
    while i < list.len()
        invariant
            i <= list.len(),
            base == frame_modifiers(held, events@),
            key == frame_key(events@),
            forall|j: int| 0 <= j < i ==> !fires(#[trigger] list@[j], held, events@, pressed@),
        decreases list.len() - i,
    {
        let (action, shortcut) = list[i];
        if matches_logically(held, base.plus(shortcut.modifiers)) {
            let by_event = match key {
                Some(k) => k == shortcut.logical_key,
                None => false,
            };
            if by_event || key_pressed(pressed, shortcut.logical_key) {
                assert(fires(list@[i as int], held, events@, pressed@));
                return Some(action);
            }
        }
        i = i + 1;
    }
    None
}

/// Whether `key` is among the keys pressed.
pub fn key_pressed(pressed: &Vec<Key>, key: Key) -> (res: bool)
    ensures
        res == pressed@.contains(key),
{
    let mut i: usize = 0;
    while i < pressed.len()
        invariant
            i <= pressed.len(),
            forall|j: int| 0 <= j < i ==> pressed@[j] != key,
        decreases pressed.len() - i,
    {
        if pressed[i] == key {
            assert(pressed@[i as int] == key);
            return true;
        }
        i = i + 1;
    }
    false
}

} // verus!
