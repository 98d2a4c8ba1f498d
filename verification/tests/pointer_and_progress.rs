use bootty_app::config::MultiplexerBackendConfig;
use bootty_app::cursor::{terminal_cursor_icon_for_mouse_shape, CursorIcon, TerminalPointer};
use bootty_app::progress::{
    session_ports, terminal_progress_update, window_has_indeterminate_progress, window_progress,
    MuxWindowProgress, ProgressUpdate, TerminalProgress, TerminalProgressState,
};

#[test]
fn mouse_shape_side_effect_maps_common_cursor_names() {
    assert_eq!(
        terminal_cursor_icon_for_mouse_shape("shape=pointing_hand"),
        Some(CursorIcon::PointingHand)
    );
    assert_eq!(
        terminal_cursor_icon_for_mouse_shape("ew-resize"),
        Some(CursorIcon::ResizeHorizontal)
    );
    assert_eq!(
        terminal_cursor_icon_for_mouse_shape("not-a-known-cursor"),
        None
    );
}

#[test]
fn mouse_shape_requests_read_the_first_known_token() {
    assert_eq!(
        terminal_cursor_icon_for_mouse_shape("TEXT"),
        Some(CursorIcon::Text)
    );
    assert_eq!(
        terminal_cursor_icon_for_mouse_shape("bogus;hidden"),
        Some(CursorIcon::Hidden)
    );
    assert_eq!(terminal_cursor_icon_for_mouse_shape(""), None);
}

#[test]
fn typing_hides_the_pointer_and_keeps_the_requested_shape() {
    let mut pointer = TerminalPointer::new();
    assert_eq!(pointer.effective_icon(), CursorIcon::Text);
    assert_eq!(
        pointer.apply_mouse_shape("pointer"),
        Some(CursorIcon::PointingHand)
    );
    assert_eq!(
        pointer.set_hidden_while_typing(true, true),
        Some(CursorIcon::Hidden)
    );
    assert_eq!(pointer.set_hidden_while_typing(true, true), None);
    assert_eq!(pointer.apply_mouse_shape("text"), Some(CursorIcon::Hidden));
    assert_eq!(
        pointer.set_hidden_while_typing(false, true),
        Some(CursorIcon::Text)
    );
    assert_eq!(pointer.set_hidden_while_typing(true, false), None);
}

#[test]
fn progress_reports_record_clear_or_are_ignored() {
    assert_eq!(
        terminal_progress_update("normal", Some(40), MultiplexerBackendConfig::Native),
        ProgressUpdate::Record(TerminalProgress {
            state: TerminalProgressState::Normal,
            value: Some(40)
        })
    );
    assert_eq!(
        terminal_progress_update("inactive", None, MultiplexerBackendConfig::Native),
        ProgressUpdate::Clear
    );
    assert_eq!(
        terminal_progress_update("unknown", Some(1), MultiplexerBackendConfig::Native),
        ProgressUpdate::Ignore
    );
    assert_eq!(
        terminal_progress_update("normal", Some(1), MultiplexerBackendConfig::Tmux),
        ProgressUpdate::Ignore
    );
    assert_eq!(
        TerminalProgress::from_conemu("indeterminate", None).and_then(|p| p.percent()),
        Some(50)
    );
}

#[test]
fn window_progress_prefers_the_backend_then_the_largest_pane() {
    let pane = |value| {
        Some(TerminalProgress {
            state: TerminalProgressState::Normal,
            value: Some(value),
        })
    };
    assert_eq!(window_progress(None, &[pane(10), None, pane(70), pane(30)]), Some(70));
    assert_eq!(window_progress(None, &[None, None]), None);
    assert_eq!(window_progress(pane(5), &[pane(90)]), Some(5));
    let spinning = Some(TerminalProgress {
        state: TerminalProgressState::Indeterminate,
        value: None,
    });
    assert!(window_has_indeterminate_progress(None, &[pane(1), spinning]));
    assert!(!window_has_indeterminate_progress(None, &[pane(1)]));
}

#[test]
fn session_ports_list_each_port_once_in_report_order() {
    let ports = session_ports(vec![3000], &vec![vec![8080, 3000], vec![5173, 8080]]);
    assert_eq!(ports, vec![3000, 8080, 5173]);
}

#[test]
fn backend_progress_reads_like_a_terminal_report() {
    let report = MuxWindowProgress {
        state: "warning".to_owned(),
        percent: Some(12),
    };
    assert_eq!(
        TerminalProgress::from_mux(&report),
        Some(TerminalProgress {
            state: TerminalProgressState::Warning,
            value: Some(12)
        })
    );
    let done = MuxWindowProgress {
        state: "inactive".to_owned(),
        percent: None,
    };
    assert_eq!(TerminalProgress::from_mux(&done), None);
}
