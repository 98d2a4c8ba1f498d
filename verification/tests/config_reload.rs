use bootty_app::reload::{reload_plan, ConfigDiff, ReloadEffect, ReloadOutcome, ReloadPlan};

fn clean() -> ReloadOutcome {
    ReloadOutcome {
        load: None,
        modifier_remaps: None,
        keybinds: None,
        sidebar_keybinds: None,
        terminal_colors: None,
        cursor: None,
        features: None,
    }
}

fn unchanged() -> ConfigDiff {
    ConfigDiff {
        colors: false,
        cursor: false,
        glyph_protocol: false,
        font: false,
        ui_families: false,
        window_title: false,
        diagnostics: false,
        new_session_settings: false,
        hides_pointer_while_typing: true,
    }
}

fn rejected(plan: ReloadPlan) -> String {
    match plan {
        ReloadPlan::Rejected { error } => error,
        ReloadPlan::Accepted { .. } => panic!("reload was accepted"),
    }
}

fn accepted(plan: ReloadPlan) -> (Vec<ReloadEffect>, bool, bool, Option<String>) {
    match plan {
        ReloadPlan::Accepted {
            effects,
            rebuild_stability_trace,
            pending_new_session_changes,
            last_error,
            reset_session_names,
            ..
        } => {
            assert!(reset_session_names);
            (effects, rebuild_stability_trace, pending_new_session_changes, last_error)
        }
        ReloadPlan::Rejected { error } => panic!("reload was rejected: {error}"),
    }
}

#[test]
fn load_error_is_reported_before_later_stages() {
    let mut outcome = clean();
    outcome.load = Some("parse error".to_owned());
    outcome.keybinds = Some("bad keybind".to_owned());
    assert_eq!(rejected(reload_plan(outcome, unchanged(), false, None, false)), "parse error");
}

#[test]
fn keybind_error_wins_over_sidebar_keybind_error() {
    let mut outcome = clean();
    outcome.keybinds = Some("bad keybind".to_owned());
    outcome.sidebar_keybinds = Some("bad sidebar keybind".to_owned());
    assert_eq!(rejected(reload_plan(outcome, unchanged(), true, None, false)), "bad keybind");
}

#[test]
fn terminal_color_failure_counts_only_when_colors_changed() {
    let mut outcome = clean();
    outcome.terminal_colors = Some("colors refused".to_owned());
    let (effects, _, _, last_error) = accepted(reload_plan(outcome.clone(), unchanged(), false, None, false));
    assert_eq!(effects, vec![ReloadEffect::RequestRepaint]);
    assert_eq!(last_error, None);

    let mut diff = unchanged();
    diff.colors = true;
    assert_eq!(rejected(reload_plan(outcome, diff, false, None, false)), "colors refused");
}

#[test]
fn cursor_and_feature_failures_follow_their_differences() {
    let mut outcome = clean();
    outcome.cursor = Some("cursor refused".to_owned());
    outcome.features = Some("features refused".to_owned());
    let mut diff = unchanged();
    diff.glyph_protocol = true;
    assert_eq!(rejected(reload_plan(outcome.clone(), diff, false, None, false)), "features refused");
    diff.cursor = true;
    assert_eq!(rejected(reload_plan(outcome, diff, false, None, false)), "cursor refused");
}

#[test]
fn font_and_title_changes_ask_the_window_in_order() {
    let mut diff = unchanged();
    diff.font = true;
    diff.ui_families = true;
    diff.window_title = true;
    diff.diagnostics = true;
    let (effects, rebuild, pending, last_error) = accepted(reload_plan(clean(), diff, false, None, false));
    assert_eq!(
        effects,
        vec![
            ReloadEffect::SetTerminalTextConfig,
            ReloadEffect::SetUiFonts,
            ReloadEffect::SetWindowTitle,
            ReloadEffect::RequestRepaint,
        ]
    );
    assert!(rebuild);
    assert!(!pending);
    assert_eq!(last_error, None);
}

#[test]
fn ui_family_change_without_font_change_sets_no_fonts() {
    let mut diff = unchanged();
    diff.ui_families = true;
    let (effects, rebuild, _, _) = accepted(reload_plan(clean(), diff, false, None, false));
    assert_eq!(effects, vec![ReloadEffect::RequestRepaint]);
    assert!(!rebuild);

    diff.font = true;
    diff.ui_families = false;
    let (effects, _, _, _) = accepted(reload_plan(clean(), diff, false, None, false));
    assert_eq!(effects, vec![ReloadEffect::SetTerminalTextConfig, ReloadEffect::RequestRepaint]);
}

#[test]
fn new_session_settings_leave_the_restart_note_and_the_warning() {
    let mut diff = unchanged();
    diff.new_session_settings = true;
    let (_, _, pending, last_error) =
        accepted(reload_plan(clean(), diff, false, Some("old key renamed".to_owned()), false));
    assert!(pending);
    assert_eq!(
        last_error.as_deref(),
        Some("config reloaded; session/window settings require a new window or restart; old key renamed")
    );
}

#[test]
fn waiting_settings_keep_the_restart_note_on_a_later_reload() {
    let (_, _, pending, last_error) = accepted(reload_plan(clean(), unchanged(), true, None, false));
    assert!(pending);
    assert_eq!(
        last_error.as_deref(),
        Some("config reloaded; session/window settings require a new window or restart")
    );
}

#[test]
fn warning_alone_when_nothing_waits() {
    let (_, _, pending, last_error) =
        accepted(reload_plan(clean(), unchanged(), false, Some("old key renamed".to_owned()), false));
    assert!(!pending);
    assert_eq!(last_error.as_deref(), Some("old key renamed"));
}

#[test]
fn a_hidden_pointer_shows_again_when_the_new_config_stops_hiding_it() {
    let mut diff = unchanged();
    diff.hides_pointer_while_typing = false;
    match reload_plan(clean(), diff, false, None, true) {
        ReloadPlan::Accepted { effects, pointer_hidden, .. } => {
            assert_eq!(effects, vec![ReloadEffect::SetTerminalCursorIcon, ReloadEffect::RequestRepaint]);
            assert!(!pointer_hidden);
        }
        ReloadPlan::Rejected { error } => panic!("reload was rejected: {error}"),
    }
    match reload_plan(clean(), unchanged(), false, None, true) {
        ReloadPlan::Accepted { effects, pointer_hidden, .. } => {
            assert_eq!(effects, vec![ReloadEffect::RequestRepaint]);
            assert!(pointer_hidden);
        }
        ReloadPlan::Rejected { error } => panic!("reload was rejected: {error}"),
    }
    match reload_plan(clean(), diff, false, None, false) {
        ReloadPlan::Accepted { effects, pointer_hidden, .. } => {
            assert_eq!(effects, vec![ReloadEffect::RequestRepaint]);
            assert!(!pointer_hidden);
        }
        ReloadPlan::Rejected { error } => panic!("reload was rejected: {error}"),
    }
}
