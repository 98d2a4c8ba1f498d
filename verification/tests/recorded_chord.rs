use bootty_app::chord::{normalize_recorded_chord, take_configure_keybind_chord};
use bootty_app::copy_mode::{UiEvent, UiKey, UiModifiers};

#[test]
fn recorded_chord_lowercases_letters_but_keeps_named_keys() {
    assert_eq!(
        normalize_recorded_chord("cmd+alt+X".to_owned()),
        "cmd+alt+x"
    );
    assert_eq!(normalize_recorded_chord("cmd+V".to_owned()), "cmd+v");
    assert_eq!(normalize_recorded_chord("ctrl+KeyV".to_owned()), "ctrl+v");
    assert_eq!(
        normalize_recorded_chord("ctrl+shift+Digit1".to_owned()),
        "ctrl+shift+1"
    );
    assert_eq!(normalize_recorded_chord("ctrl+Tab".to_owned()), "ctrl+Tab");
    assert_eq!(normalize_recorded_chord("cmd+F5".to_owned()), "cmd+F5");
    assert_eq!(normalize_recorded_chord("cmd+=".to_owned()), "cmd+=");
}

#[test]
fn normalizing_a_chord_twice_changes_nothing_more() {
    for chord in ["cmd+alt+X", "ctrl+KeyV", "ctrl+shift+Digit1", "Tab", "", "shift+KeyA"] {
        let once = normalize_recorded_chord(chord.to_owned());
        assert_eq!(normalize_recorded_chord(once.clone()), once);
    }
}

fn comma(modifiers: UiModifiers) -> UiEvent {
    UiEvent::Key {
        key: UiKey::Comma,
        pressed: true,
        repeat: false,
        modifiers,
    }
}

#[test]
fn configure_keybind_chord_is_taken_only_while_the_palette_is_open() {
    let mac_chord = comma(UiModifiers { shift: true, command: true, mac_cmd: true, ..Default::default() });
    let other_chord = comma(UiModifiers { shift: true, ctrl: true, ..Default::default() });
    let mut events = vec![UiEvent::Text("x".to_owned()), mac_chord.clone(), mac_chord.clone()];
    assert!(!take_configure_keybind_chord(&mut events, false, true));
    assert_eq!(events.len(), 3);
    assert!(take_configure_keybind_chord(&mut events, true, true));
    assert_eq!(events, vec![UiEvent::Text("x".to_owned()), mac_chord.clone()]);

    let mut events = vec![mac_chord.clone()];
    assert!(!take_configure_keybind_chord(&mut events, true, false));
    let mut events = vec![other_chord.clone()];
    assert!(take_configure_keybind_chord(&mut events, true, false));
    assert!(events.is_empty());
}

#[test]
fn normalizing_keeps_the_modifiers_and_unknown_keys() {
    for (chord, prefix_len) in [("cmd+alt+X", 8), ("ctrl+KeyV", 5), ("shift+Digit7", 6), ("cmd++", 4)] {
        let normalized = normalize_recorded_chord(chord.to_owned());
        assert_eq!(&normalized[..prefix_len], &chord[..prefix_len]);
    }
    for chord in ["ctrl+Tab", "cmd+F12", "Escape", "alt+KeyAB", "cmd+Digit", "+"] {
        assert_eq!(normalize_recorded_chord(chord.to_owned()), chord);
    }
}
