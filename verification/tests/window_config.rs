use bootty_app::config::{
    backend_label, backend_uses_native_layout_renderer, binding_label,
    next_non_native_fullscreen_state, pane_widget_key, persisted_session_restore_decision,
    scoped_terminal_transition_key, should_toggle_native_fullscreen, status_segment_visible,
    uses_custom_egui_fonts, BoottyConfig, MultiplexerBackendConfig,
    PersistedSessionRestoreDecision, StatusSegment, WindowFullscreen,
};

#[test]
fn app_default_fullscreen_config_toggles_native_fullscreen() {
    let config = BoottyConfig::default();

    assert!(should_toggle_native_fullscreen(&config.window));
}

#[test]
fn app_appkit_handled_non_native_fullscreen_toggles_tracked_state() {
    assert!(!next_non_native_fullscreen_state(true, true, false));
    assert!(next_non_native_fullscreen_state(true, false, false));
}

#[test]
fn app_viewport_handled_non_native_fullscreen_toggles_maximized_state() {
    assert!(!next_non_native_fullscreen_state(false, false, true));
    assert!(next_non_native_fullscreen_state(false, true, false));
}

#[test]
fn app_non_native_fullscreen_config_toggles_non_native_fullscreen() {
    let mut config = BoottyConfig::default();
    config.window.fullscreen = WindowFullscreen::NonNative;

    assert!(!should_toggle_native_fullscreen(&config.window));
}

#[test]
fn state_default_fullscreen_config_toggles_native_fullscreen() {
    let config = BoottyConfig::default();

    assert!(should_toggle_native_fullscreen(&config.window));
}

#[test]
fn state_appkit_handled_non_native_fullscreen_toggles_tracked_state() {
    assert!(!next_non_native_fullscreen_state(true, true, false));
    assert!(next_non_native_fullscreen_state(true, false, false));
}

#[test]
fn state_viewport_handled_non_native_fullscreen_toggles_maximized_state() {
    assert!(!next_non_native_fullscreen_state(false, false, true));
    assert!(next_non_native_fullscreen_state(false, true, false));
}

#[test]
fn state_non_native_fullscreen_config_toggles_non_native_fullscreen() {
    let mut config = BoottyConfig::default();
    config.window.fullscreen = WindowFullscreen::NonNative;

    assert!(!should_toggle_native_fullscreen(&config.window));
}

#[test]
fn native_fullscreen_config_also_toggles_native_fullscreen() {
    let mut config = BoottyConfig::default();
    config.window.fullscreen = WindowFullscreen::Native;
    assert!(should_toggle_native_fullscreen(&config.window));
    assert!(config.window.native_fullscreen_enabled());
    assert!(!config.window.non_native_fullscreen_enabled());
}

#[test]
fn custom_egui_fonts_only_load_for_visible_chrome() {
    let mut config = BoottyConfig::default();
    assert!(uses_custom_egui_fonts(&config));

    config.chrome.sidebar = false;
    config.chrome.status_bar = false;
    assert!(!uses_custom_egui_fonts(&config));

    config.chrome.status_bar = true;
    assert!(uses_custom_egui_fonts(&config));
}

#[test]
fn rmux_uses_native_layout_renderer() {
    assert!(backend_uses_native_layout_renderer(
        MultiplexerBackendConfig::Native
    ));
    assert!(backend_uses_native_layout_renderer(
        MultiplexerBackendConfig::Rmux
    ));
    assert!(!backend_uses_native_layout_renderer(
        MultiplexerBackendConfig::Tmux
    ));
    assert!(!backend_uses_native_layout_renderer(
        MultiplexerBackendConfig::Zellij
    ));
}

#[test]
fn session_status_segment_tracks_sidebar_visibility() {
    let segment = StatusSegment {
        module: "session".to_owned(),
    };
    assert!(!status_segment_visible(&segment, true));
    assert!(status_segment_visible(&segment, false));
}

#[test]
fn non_session_status_segments_remain_visible_with_sidebar() {
    let segment = StatusSegment {
        module: "windows".to_owned(),
    };
    assert!(status_segment_visible(&segment, true));
}

#[test]
fn persisted_sessions_restore_only_where_nothing_already_runs() {
    assert_eq!(
        persisted_session_restore_decision(MultiplexerBackendConfig::Native, false, true),
        PersistedSessionRestoreDecision::Restore
    );
    assert_eq!(
        persisted_session_restore_decision(MultiplexerBackendConfig::Rmux, false, false),
        PersistedSessionRestoreDecision::Wait
    );
    assert_eq!(
        persisted_session_restore_decision(MultiplexerBackendConfig::Rmux, true, true),
        PersistedSessionRestoreDecision::Skip
    );
    assert_eq!(
        persisted_session_restore_decision(MultiplexerBackendConfig::Rmux, true, false),
        PersistedSessionRestoreDecision::Restore
    );
    assert_eq!(
        persisted_session_restore_decision(MultiplexerBackendConfig::Tmux, true, false),
        PersistedSessionRestoreDecision::Skip
    );
    assert_eq!(
        persisted_session_restore_decision(MultiplexerBackendConfig::Zellij, false, false),
        PersistedSessionRestoreDecision::Skip
    );
}

#[test]
fn binding_keys_and_labels_spell_out_their_parts() {
    assert_eq!(backend_label(MultiplexerBackendConfig::Zellij), "Zellij");
    assert_eq!(
        binding_label(-3, MultiplexerBackendConfig::Rmux),
        "Rmux / Binding -3"
    );
    assert_eq!(
        scoped_terminal_transition_key(7, 2, MultiplexerBackendConfig::Tmux, "work", Some("%4")),
        "7:2:Tmux:work:%4"
    );
    assert_eq!(
        scoped_terminal_transition_key(0, 1, MultiplexerBackendConfig::Native, "s", None),
        "0:1:Native:s:"
    );
    assert_eq!(
        pane_widget_key(1, 10, MultiplexerBackendConfig::Native, "s", "w", "p"),
        "1:10:Native:s:w:p"
    );
}
