use local_whisper::hotkey::{
    shortcut_event, FnComboTracker, HotkeyEvent, Shortcut, EVENT_FLAGS_CHANGED, FLAG_SECONDARY_FN,
    FLAG_SHIFT,
};

fn sc(mods: u32, key: &str) -> Shortcut {
    Shortcut { mods, key: key.to_string(), text: format!("{mods}+{key}") }
}

#[test]
fn event_names() {
    assert_eq!(HotkeyEvent::Down.name(), "hotkey:down");
    assert_eq!(HotkeyEvent::Up.name(), "hotkey:up");
}

#[test]
fn shortcut_events_only_for_the_bound_shortcut() {
    let bound = sc(3, "Space");
    assert_eq!(shortcut_event(&bound, &sc(3, "Space"), true), Some(HotkeyEvent::Down));
    assert_eq!(shortcut_event(&bound, &sc(3, "Space"), false), Some(HotkeyEvent::Up));
    assert_eq!(shortcut_event(&bound, &sc(1, "Space"), true), None);
    assert_eq!(shortcut_event(&bound, &sc(3, "KeyA"), false), None);
}

#[test]
fn fn_combo_edges() {
    let both = FLAG_SHIFT | FLAG_SECONDARY_FN;
    let mut t = FnComboTracker::new();
    assert_eq!(t.on_event(EVENT_FLAGS_CHANGED, FLAG_SHIFT), None);
    assert_eq!(t.on_event(EVENT_FLAGS_CHANGED, both), Some(HotkeyEvent::Down));
    assert_eq!(t.on_event(EVENT_FLAGS_CHANGED, both | 0x1), None);
    assert_eq!(t.on_event(10, 0), None);
    assert!(t.was_held);
    assert_eq!(t.on_event(EVENT_FLAGS_CHANGED, FLAG_SECONDARY_FN), Some(HotkeyEvent::Up));
    assert_eq!(t.on_event(EVENT_FLAGS_CHANGED, 0), None);
    assert!(!t.was_held);
}

#[test]
fn fn_combo_events_alternate_on_a_long_run() {
    let both = FLAG_SHIFT | FLAG_SECONDARY_FN;
    let flags = [0, both, both, FLAG_SHIFT, both, 0, 0, FLAG_SECONDARY_FN, both, both | 4, 0];
    let mut t = FnComboTracker::new();
    let evs: Vec<HotkeyEvent> =
        flags.iter().filter_map(|f| t.on_event(EVENT_FLAGS_CHANGED, *f)).collect();
    assert_eq!(evs.len(), 6);
    for (i, e) in evs.iter().enumerate() {
        let expected = if i % 2 == 0 { HotkeyEvent::Down } else { HotkeyEvent::Up };
        assert_eq!(*e, expected);
    }
}
