use bootty_app::copy_mode::{
    consume_copy_mode_events, copy_mode_action_for_char, copy_mode_action_for_egui_event,
    copy_mode_action_for_egui_key, copy_mode_action_for_input, copy_mode_egui_key_should_pass_to_app,
    copy_mode_input_should_pass_to_app, copy_shortcut_pressed,
    direct_copy_shortcut_pressed, remove_first_paste_event, CopyModeKeyAction, CopyModeSearchRepeat, KeyInput, KeyMods,
    TerminalCopyModeAction, TerminalCopyModeMotion, TerminalKey, TerminalSearchDirection,
    TerminalSearchMemory, UiEvent, UiKey, UiModifiers,
};

fn key_event(key: UiKey, modifiers: UiModifiers) -> UiEvent {
    UiEvent::Key {
        key,
        pressed: true,
        repeat: false,
        modifiers,
    }
}

fn terminal(action: TerminalCopyModeAction) -> Option<CopyModeKeyAction> {
    Some(CopyModeKeyAction::Terminal(action))
}

#[test]
fn direct_command_c_is_detected_as_copy_shortcut_for_selection_override() {
    assert!(direct_copy_shortcut_pressed(KeyInput {
        key: TerminalKey::C,
        mods: KeyMods {
            command: true,
            ..Default::default()
        },
        repeat: false,
        utf8: Some("c"),
        unshifted: Some('c'),
    }));
    assert!(!direct_copy_shortcut_pressed(KeyInput {
        key: TerminalKey::C,
        mods: KeyMods {
            ctrl: true,
            ..Default::default()
        },
        repeat: false,
        utf8: Some("c"),
        unshifted: Some('c'),
    }));
}

#[test]
fn command_c_is_detected_as_copy_shortcut_for_selection_override() {
    assert!(copy_shortcut_pressed(&UiEvent::Key {
        key: UiKey::C,
        pressed: true,
        repeat: false,
        modifiers: UiModifiers {
            command: true,
            mac_cmd: true,
            ..Default::default()
        },
    }));
    assert!(!copy_shortcut_pressed(&UiEvent::Key {
        key: UiKey::C,
        pressed: true,
        repeat: false,
        modifiers: UiModifiers {
            ctrl: true,
            ..Default::default()
        },
    }));
}

#[test]
fn copy_mode_key_layer_supports_tmux_vim_navigation_and_selection() {
    assert_eq!(
        copy_mode_action_for_egui_key(UiKey::J, UiModifiers::default()),
        terminal(TerminalCopyModeAction::Move(TerminalCopyModeMotion::Down))
    );
    assert_eq!(
        copy_mode_action_for_char('n'),
        Some(CopyModeKeyAction::SearchRepeat(
            CopyModeSearchRepeat::SameDirection
        ))
    );
    assert_eq!(
        copy_mode_action_for_char('N'),
        Some(CopyModeKeyAction::SearchRepeat(
            CopyModeSearchRepeat::OppositeDirection
        ))
    );
    assert_eq!(
        copy_mode_action_for_input(KeyInput {
            key: TerminalKey::N,
            mods: KeyMods::default(),
            repeat: false,
            utf8: Some("n"),
            unshifted: Some('n'),
        }),
        Some(CopyModeKeyAction::SearchRepeat(
            CopyModeSearchRepeat::SameDirection
        ))
    );

    let mut suppress_next_text = false;
    assert_eq!(
        copy_mode_action_for_egui_event(
            &key_event(UiKey::J, UiModifiers::default()),
            &mut suppress_next_text,
        ),
        terminal(TerminalCopyModeAction::Move(TerminalCopyModeMotion::Down))
    );
    assert_eq!(
        copy_mode_action_for_egui_event(&UiEvent::Text("j".to_owned()), &mut suppress_next_text,),
        None
    );
    assert_eq!(
        copy_mode_action_for_egui_event(&UiEvent::Text("/".to_owned()), &mut suppress_next_text,),
        Some(CopyModeKeyAction::SearchPrompt(
            TerminalSearchDirection::Next
        ))
    );
    assert_eq!(
        copy_mode_action_for_egui_key(UiKey::ArrowUp, UiModifiers::default()),
        terminal(TerminalCopyModeAction::Move(TerminalCopyModeMotion::Up))
    );
    assert_eq!(
        copy_mode_action_for_egui_key(UiKey::Space, UiModifiers::default()),
        terminal(TerminalCopyModeAction::BeginSelection)
    );
    assert_eq!(
        copy_mode_action_for_egui_key(UiKey::V, UiModifiers::default()),
        terminal(TerminalCopyModeAction::ToggleSelection)
    );
    assert_eq!(
        copy_mode_action_for_egui_key(
            UiKey::V,
            UiModifiers {
                ctrl: true,
                ..Default::default()
            }
        ),
        terminal(TerminalCopyModeAction::ToggleRectangle)
    );

    assert_eq!(
        copy_mode_action_for_egui_key(
            UiKey::V,
            UiModifiers {
                shift: true,
                ..Default::default()
            }
        ),
        terminal(TerminalCopyModeAction::SelectLine)
    );
    assert_eq!(
        copy_mode_action_for_char('v'),
        terminal(TerminalCopyModeAction::ToggleSelection)
    );
    assert_eq!(
        copy_mode_action_for_input(KeyInput {
            key: TerminalKey::V,
            mods: KeyMods::default(),
            repeat: false,
            utf8: Some("v"),
            unshifted: Some('v'),
        }),
        terminal(TerminalCopyModeAction::ToggleSelection)
    );
    assert_eq!(
        copy_mode_action_for_char('o'),
        terminal(TerminalCopyModeAction::ToggleSelectionEnd)
    );
    assert_eq!(
        copy_mode_action_for_input(KeyInput {
            key: TerminalKey::O,
            mods: KeyMods::default(),
            repeat: false,
            utf8: Some("o"),
            unshifted: Some('o'),
        }),
        terminal(TerminalCopyModeAction::ToggleSelectionEnd)
    );
    assert_eq!(
        copy_mode_action_for_char('$'),
        terminal(TerminalCopyModeAction::Move(
            TerminalCopyModeMotion::EndOfLine
        ))
    );
    assert_eq!(
        copy_mode_action_for_char('/'),
        Some(CopyModeKeyAction::SearchPrompt(
            TerminalSearchDirection::Next
        ))
    );
    assert_eq!(
        copy_mode_action_for_char('?'),
        Some(CopyModeKeyAction::SearchPrompt(
            TerminalSearchDirection::Previous
        ))
    );
    assert_eq!(
        copy_mode_action_for_char('*'),
        Some(CopyModeKeyAction::SearchWord(TerminalSearchDirection::Next))
    );
    assert_eq!(
        copy_mode_action_for_char('#'),
        Some(CopyModeKeyAction::SearchWord(
            TerminalSearchDirection::Previous
        ))
    );
}

#[test]
fn copy_mode_egui_question_mark_opens_backward_search_prompt() {
    let mut suppress_next_text = false;
    assert_eq!(
        copy_mode_action_for_egui_event(
            &key_event(UiKey::Questionmark, UiModifiers::default()),
            &mut suppress_next_text,
        ),
        Some(CopyModeKeyAction::SearchPrompt(
            TerminalSearchDirection::Previous
        ))
    );

    let mut suppress_next_text = false;
    assert_eq!(
        copy_mode_action_for_egui_event(
            &key_event(
                UiKey::Slash,
                UiModifiers {
                    shift: true,
                    ..Default::default()
                },
            ),
            &mut suppress_next_text,
        ),
        Some(CopyModeKeyAction::SearchPrompt(
            TerminalSearchDirection::Previous
        ))
    );
}

#[test]
fn copy_mode_search_repeat_uses_the_direction_that_started_search() {
    let mut memory = TerminalSearchMemory::new();
    memory.record(TerminalSearchDirection::Previous);
    assert_eq!(memory.last_direction, TerminalSearchDirection::Previous);
    assert_eq!(
        memory.repeat(CopyModeSearchRepeat::SameDirection),
        TerminalSearchDirection::Previous
    );
    assert_eq!(
        memory.repeat(CopyModeSearchRepeat::OppositeDirection),
        TerminalSearchDirection::Next
    );
    assert_eq!(
        memory.last_direction,
        TerminalSearchDirection::Previous,
        "opposite repeat must not change the sticky search mode"
    );
    memory.record(TerminalSearchDirection::Current);
    assert_eq!(memory.last_direction, TerminalSearchDirection::Previous);
    memory.record(TerminalSearchDirection::Next);
    assert_eq!(
        memory.last_direction,
        TerminalSearchDirection::Next,
        "a new explicit search prompt should replace the sticky search mode"
    );
}

#[test]
fn copy_mode_routing_takes_keys_and_leaves_other_events() {
    let events = vec![
        UiEvent::Other(7),
        key_event(UiKey::J, UiModifiers::default()),
        UiEvent::Text("j".to_owned()),
        UiEvent::Other(8),
    ];
    let routed = consume_copy_mode_events(events.clone(), true);
    assert_eq!(routed.actions.len(), 1);
    assert_eq!(
        routed.actions[0],
        CopyModeKeyAction::Terminal(TerminalCopyModeAction::Move(TerminalCopyModeMotion::Down))
    );
    assert_eq!(routed.consumed + routed.retained.len(), 4);

    let idle = consume_copy_mode_events(events, false);
    assert_eq!(idle.retained.len(), 4);
    assert!(idle.actions.is_empty());
    assert_eq!(idle.consumed, 0);
}

#[test]
fn remove_first_paste_event_removes_only_one_paste_event() {
    let mut events = vec![
        UiEvent::Text("before".to_owned()),
        UiEvent::Paste("first".to_owned()),
        UiEvent::Paste("second".to_owned()),
    ];

    assert!(remove_first_paste_event(&mut events));
    assert_eq!(
        events,
        vec![
            UiEvent::Text("before".to_owned()),
            UiEvent::Paste("second".to_owned())
        ]
    );
    let mut no_paste = vec![UiEvent::Other(1)];
    assert!(!remove_first_paste_event(&mut no_paste));
    assert_eq!(no_paste, vec![UiEvent::Other(1)]);
}

#[test]
fn app_shortcuts_pass_through_copy_mode_but_the_copy_chord_copies() {
    let cmd_t = KeyInput {
        key: TerminalKey::T,
        mods: KeyMods { command: true, ..Default::default() },
        repeat: false,
        utf8: Some("t"),
        unshifted: Some('t'),
    };
    assert!(copy_mode_input_should_pass_to_app(cmd_t));
    assert_eq!(copy_mode_action_for_input(cmd_t), None);

    let cmd_c = KeyInput {
        key: TerminalKey::C,
        mods: KeyMods { command: true, ..Default::default() },
        repeat: false,
        utf8: Some("c"),
        unshifted: Some('c'),
    };
    assert!(!copy_mode_input_should_pass_to_app(cmd_c));
    assert_eq!(
        copy_mode_action_for_input(cmd_c),
        terminal(TerminalCopyModeAction::CopySelectionAndCancel)
    );

    let alt = UiModifiers { alt: true, ..Default::default() };
    assert!(copy_mode_egui_key_should_pass_to_app(UiKey::J, alt));
    assert_eq!(copy_mode_action_for_egui_key(UiKey::J, alt), None);
    let command = UiModifiers { command: true, mac_cmd: true, ..Default::default() };
    assert!(!copy_mode_egui_key_should_pass_to_app(UiKey::C, command));
    assert_eq!(
        copy_mode_action_for_egui_key(UiKey::C, command),
        terminal(TerminalCopyModeAction::CopySelectionAndCancel)
    );
}
