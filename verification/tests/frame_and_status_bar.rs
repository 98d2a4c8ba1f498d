use bootty_app::frame::{frame_repaint, frame_step, AttachStatus, AttachStep, FrameFacts, FrameRepaint};
use bootty_app::keybind::{AppAction, KeybindAction};
use bootty_app::windows::{status_bar_action, StatusBarAction};

#[test]
fn frame_wait_is_capped_by_the_reload_interval() {
    assert_eq!(frame_repaint(false, 16_000, 250_000), Some(FrameRepaint::After(16_000)));
    assert_eq!(frame_repaint(false, 5_000_000, 250_000), Some(FrameRepaint::After(250_000)));
    assert_eq!(frame_repaint(true, 5_000_000, 250_000), Some(FrameRepaint::After(250_000)));
}

#[test]
fn immediate_repaint_is_asked_once() {
    assert_eq!(frame_repaint(false, 0, 250_000), Some(FrameRepaint::Now));
    assert_eq!(frame_repaint(true, 0, 250_000), None);
    assert_eq!(frame_repaint(false, 40, 0), Some(FrameRepaint::Now));
}

#[test]
fn status_bar_actions_toggle_keep_awake_or_switch_tabs() {
    assert_eq!(status_bar_action("toggle-caffeinate", false), StatusBarAction::ToggleKeepAwake);
    assert_eq!(
        status_bar_action("activate-window:@3", true),
        StatusBarAction::ActivateWindow("@3".to_owned())
    );
    assert_eq!(status_bar_action("activate-window:@3", false), StatusBarAction::Ignore);
    assert_eq!(status_bar_action("activate-window", true), StatusBarAction::Ignore);
    assert_eq!(status_bar_action("open-settings", true), StatusBarAction::Ignore);
}

fn facts(native: bool) -> FrameFacts {
    FrameFacts {
        pending_command: None,
        native,
        attach: AttachStatus::Alive,
        command_failed: false,
        refresh_interval: 500,
        config_changed: false,
    }
}

#[test]
fn a_native_frame_closes_exited_panes_and_schedules_no_poll() {
    let mut f = facts(true);
    f.pending_command = Some(KeybindAction::App(AppAction::CommandPalette));
    f.config_changed = true;
    let step = frame_step(f);
    assert_eq!(step.run_command, Some(KeybindAction::App(AppAction::CommandPalette)));
    assert!(step.close_exited_panes);
    assert_eq!(step.attach, None);
    assert!(!step.start_due_reattach);
    assert_eq!(step.poll_repaint_after, None);
    assert!(step.reload_config);
}

#[test]
fn an_attached_frame_follows_the_attach_client_and_polls() {
    let mut f = facts(false);
    f.attach = AttachStatus::Failed("broken pipe".to_owned());
    f.command_failed = true;
    let step = frame_step(f);
    assert_eq!(step.attach, Some(AttachStep::ShowError("broken pipe".to_owned())));
    assert!(step.start_due_reattach);
    assert!(step.clear_pending_names);
    assert_eq!(step.poll_repaint_after, Some(500));
    assert!(!step.close_exited_panes);
    let mut f = facts(false);
    f.attach = AttachStatus::Exited;
    assert_eq!(frame_step(f).attach, Some(AttachStep::HandleExit));
}
