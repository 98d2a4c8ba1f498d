use bootty_app::overlay::Overlays;
use bootty_app::config::{WindowConfig, WindowFullscreen};
use bootty_app::keybind::{
    copy_selection_or_request_copy, keybind_plan, AppAction, AppearanceMode, Dialog, KeybindAction, KeybindFacts, KeybindWork,
    TerminalAction, WindowRequest,
};
use bootty_app::mux_keys::MuxKeyAction;
use bootty_app::spaces::{SpaceId, SpaceSummary};
use bootty_app::toggles::{FullscreenToggle, InputFocus, SidebarState, ViewportSnapshot};

fn space(id: i64, active: bool) -> SpaceSummary {
    SpaceSummary {
        id: SpaceId(id),
        name: format!("space {id}"),
        icon: "folder".to_owned(),
        color: [1, 2, 3],
        tint_sidebar: false,
        active,
    }
}

fn facts(focus: InputFocus, fullscreen: WindowFullscreen) -> KeybindFacts {
    KeybindFacts {
        spaces: vec![space(10, false), space(20, true), space(30, false)],
        active_space: SpaceId(20),
        window: WindowConfig { fullscreen },
        platform_handles_frame: false,
        non_native_active: false,
        viewport: ViewportSnapshot { fullscreen: false, maximized: false },
        sidebar: SidebarState { focus, sidebar_visible: false },
    }
}

fn app(action: AppAction) -> KeybindAction {
    KeybindAction::App(action)
}

#[test]
fn dialogs_open_and_request_a_repaint() {
    let f = facts(InputFocus::Terminal, WindowFullscreen::Off);
    let step = keybind_plan(app(AppAction::CommandPalette), &f);
    assert_eq!(step.dialog, Some(Dialog::CommandPalette));
    assert_eq!(step.work, KeybindWork::Nothing);
    assert_eq!(step.requests, vec![WindowRequest::RequestRepaint]);

    let step = keybind_plan(app(AppAction::EditSpace), &f);
    assert_eq!(step.dialog, Some(Dialog::EditSpace(SpaceId(20))));

    let step = keybind_plan(app(AppAction::NewWindow), &f);
    assert_eq!(step.dialog, Some(Dialog::NewSession));
    assert!(step.requests.is_empty());
}

#[test]
fn space_navigation_lands_on_neighbours_and_numbered_spaces() {
    let f = facts(InputFocus::Terminal, WindowFullscreen::Off);
    assert_eq!(keybind_plan(app(AppAction::NextSpace), &f).work, KeybindWork::ActivateSpace(SpaceId(30)));
    assert_eq!(keybind_plan(app(AppAction::PreviousSpace), &f).work, KeybindWork::ActivateSpace(SpaceId(10)));
    assert_eq!(keybind_plan(app(AppAction::SelectSpace(1)), &f).work, KeybindWork::ActivateSpace(SpaceId(10)));
    assert_eq!(keybind_plan(app(AppAction::SelectSpace(4)), &f).work, KeybindWork::Nothing);
    assert_eq!(keybind_plan(app(AppAction::SelectSpace(0)), &f).work, KeybindWork::Nothing);
    let step = keybind_plan(app(AppAction::CloseSpace), &f);
    assert_eq!(step.work, KeybindWork::CloseSpace(SpaceId(20)));
    assert_eq!(step.requests, vec![WindowRequest::RequestRepaint]);
}

#[test]
fn close_only_closes_the_window() {
    let f = facts(InputFocus::Terminal, WindowFullscreen::Off);
    let step = keybind_plan(app(AppAction::Close), &f);
    assert_eq!(step.requests, vec![WindowRequest::CloseWindow]);
    assert_eq!(step.dialog, None);
    assert_eq!(step.work, KeybindWork::Nothing);
    assert_eq!(step.sidebar, f.sidebar);
}

#[test]
fn work_is_handed_on_without_a_dialog() {
    let f = facts(InputFocus::Terminal, WindowFullscreen::Off);
    assert_eq!(keybind_plan(app(AppAction::ReloadConfig), &f).work, KeybindWork::ReloadConfig);
    assert_eq!(
        keybind_plan(app(AppAction::ChangeAppearance(AppearanceMode::Dark)), &f).work,
        KeybindWork::PersistAppearance(AppearanceMode::Dark)
    );
    let step = keybind_plan(KeybindAction::Mux(MuxKeyAction::NextSession), &f);
    assert_eq!(step.work, KeybindWork::Mux(MuxKeyAction::NextSession));
    assert_eq!(step.requests, vec![WindowRequest::RequestRepaint]);
    let step = keybind_plan(KeybindAction::Terminal(TerminalAction::Find), &f);
    assert_eq!(step.work, KeybindWork::Terminal(TerminalAction::Find));
    assert!(step.requests.is_empty());
    assert_eq!(keybind_plan(app(AppAction::OpenSettings), &f).requests, vec![WindowRequest::OpenSettings]);
}

#[test]
fn fullscreen_binding_follows_the_configured_mode() {
    let f = facts(InputFocus::Terminal, WindowFullscreen::Off);
    let step = keybind_plan(app(AppAction::ToggleFullscreen), &f);
    assert_eq!(step.requests, vec![WindowRequest::SetFullscreen(true)]);
    assert_eq!(
        step.fullscreen,
        Some(FullscreenToggle { set_fullscreen: true, set_maximized: None, non_native_active: false })
    );

    let f = facts(InputFocus::Terminal, WindowFullscreen::NonNative);
    let step = keybind_plan(app(AppAction::ToggleFullscreen), &f);
    assert_eq!(
        step.requests,
        vec![WindowRequest::SetFullscreen(false), WindowRequest::SetMaximized(true)]
    );
}

#[test]
fn sidebar_focus_binding_shows_the_sidebar_and_closes_overlays() {
    let f = facts(InputFocus::Terminal, WindowFullscreen::Off);
    let step = keybind_plan(app(AppAction::ToggleSidebarFocus), &f);
    assert_eq!(step.sidebar, SidebarState { focus: InputFocus::Sidebar, sidebar_visible: true });
    assert!(step.close_overlays);
    assert!(step.reset_hover);
    assert_eq!(step.requests, vec![WindowRequest::RequestRepaint]);

    let f = facts(InputFocus::Sidebar, WindowFullscreen::Off);
    let step = keybind_plan(app(AppAction::ToggleSidebarFocus), &f);
    assert_eq!(step.sidebar.focus, InputFocus::Terminal);
    assert!(!step.reset_hover);
}

#[test]
fn sidebar_visibility_binding_shows_a_hidden_sidebar() {
    let f = facts(InputFocus::Terminal, WindowFullscreen::Off);
    let step = keybind_plan(app(AppAction::ToggleSidebarVisibility), &f);
    assert!(step.sidebar.sidebar_visible);
    assert!(!step.close_overlays);
}

#[test]
fn opening_a_dialog_closes_the_one_before() {
    let mut overlays = Overlays { open: None, focus: InputFocus::Terminal };
    overlays.open_dialog(Dialog::CommandPalette);
    assert_eq!(overlays.open, Some(Dialog::CommandPalette));
    assert_eq!(overlays.focus, InputFocus::Picker);
    overlays.open_dialog(Dialog::Keybinds);
    assert_eq!(overlays.open, Some(Dialog::Keybinds));
    overlays.toggle_session_picker();
    assert_eq!(overlays.open, Some(Dialog::SessionPicker));
    overlays.toggle_session_picker();
    assert_eq!(overlays, Overlays { open: None, focus: InputFocus::Terminal });
    assert!(!overlays.close_all());
}

#[test]
fn copy_binding_copies_a_selection_or_asks_the_window() {
    let plan = copy_selection_or_request_copy(Ok(Some(b"hello".to_vec())));
    assert_eq!(plan.clipboard, Some(b"hello".to_vec()));
    assert!(plan.copied);
    assert_eq!(plan.error, None);
    let plan = copy_selection_or_request_copy(Ok(None));
    assert!(!plan.copied);
    assert_eq!(plan.clipboard, None);
    let plan = copy_selection_or_request_copy(Err("grid locked".to_owned()));
    assert!(!plan.copied);
    assert_eq!(plan.error.as_deref(), Some("grid locked"));
}
