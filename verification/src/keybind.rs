//! What a key binding does: the dialog it opens, the work it starts, what it asks of the
//! window, and the state of fullscreen and the sidebar afterwards.
use vstd::prelude::*;
use crate::command::{Command, action_of};
use crate::config::WindowConfig;
use crate::mux_keys::MuxKeyAction;
use crate::spaces::{SpaceId, SpaceSummary, first_active_from, indexed_space, relative_space, relative_space_target, select_space_target};
use crate::toggles::{
    FullscreenToggle, InputFocus, SidebarState, ViewportSnapshot, fullscreen_toggle,
    sidebar_focus_toggled, sidebar_visibility_toggled, toggle_fullscreen, toggle_sidebar_focus,
    toggle_sidebar_visibility,
};

verus! {

/// The appearance a binding switches to.
#[derive(Clone, Copy, Debug, PartialEq, Eq, Structural)]
pub enum AppearanceMode {
    System,
    Light,
    Dark,
}

/// An action of the app itself.
#[derive(Clone, Copy, Debug, PartialEq, Eq, Structural)]
pub enum AppAction {
    ReloadConfig,
    Ignore,
    NewWindow,
    NewMuxSession,
    SessionPicker,
    CommandPalette,
    ChangeAppearance(AppearanceMode),
    SwitchTheme,
    RenameSession,
    RenameTab,
    DitchSession,
    EditSpace,
    CreateSpace,
    CloseSpace,
    NextSpace,
    PreviousSpace,
    SelectSpace(u32),
    ShowKeybinds,
    Close,
    OpenSettings,
    ToggleFullscreen,
    ToggleSidebarFocus,
    ToggleSidebarVisibility,
}

/// An action the terminal's own handlers carry out (scrolling, writing bytes, font size,
/// find, copy and paste).
#[derive(Clone, Copy, Debug, PartialEq, Eq, Structural)]
pub enum TerminalAction {
    Scroll,
    Write,
    Font,
    Find,
    CopyToClipboard,
    CopyMode,
    PasteFromClipboard,
}

/// A bound action.
#[derive(Clone, Copy, Debug, PartialEq, Eq, Structural)]
pub enum KeybindAction {
    App(AppAction),
    Mux(MuxKeyAction),
    Terminal(TerminalAction),
}

/// A floating dialog over the terminal (the session picker's binding toggles it).
#[derive(Clone, Copy, Debug, PartialEq, Eq, Structural)]
pub enum Dialog {
    NewSession,
    SessionPicker,
    CommandPalette,
    ThemePicker,
    RenameSession,
    RenameTab,
    DitchSession,
    EditSpace(SpaceId),
    CreateSpace,
    Keybinds,
    TerminalFind,
}

/// Work a binding starts.
#[derive(Clone, Copy, Debug, PartialEq, Eq, Structural)]
pub enum KeybindWork {
    Nothing,
    ReloadConfig,
    PersistAppearance(AppearanceMode),
    CloseSpace(SpaceId),
    /// Activate this space, requesting a repaint when the switch succeeds.
    ActivateSpace(SpaceId),
    Mux(MuxKeyAction),
    Terminal(TerminalAction),
}

/// What a binding asks of the window.
#[derive(Clone, Copy, Debug, PartialEq, Eq, Structural)]
pub enum WindowRequest {
    CloseWindow,
    OpenSettings,
    SetFullscreen(bool),
    SetMaximized(bool),
    RequestRepaint,
}

/// What the binding sees of the app.
pub struct KeybindFacts {
    pub spaces: Vec<SpaceSummary>,
    pub active_space: SpaceId,
    pub window: WindowConfig,
    pub platform_handles_frame: bool,
    pub non_native_active: bool,
    pub viewport: ViewportSnapshot,
    pub sidebar: SidebarState,
}

/// The outcome of a binding.
pub struct KeybindStep {
    pub dialog: Option<Dialog>,
    pub work: KeybindWork,
    pub requests: Vec<WindowRequest>,
    /// The fullscreen toggle's plan, when the binding toggles fullscreen.
    pub fullscreen: Option<FullscreenToggle>,
    /// Close every overlay dialog first.
    pub close_overlays: bool,
    pub sidebar: SidebarState,
    /// Put the sidebar's highlight back on the selected session.
    pub reset_hover: bool,
}

/// The dialog a binding opens.
pub open spec fn dialog_for(a: KeybindAction, active_space: SpaceId) -> Option<Dialog> {
    match a {
        KeybindAction::App(app) => match app {
            AppAction::NewWindow | AppAction::NewMuxSession => Some(Dialog::NewSession),
            AppAction::SessionPicker => Some(Dialog::SessionPicker),
            AppAction::CommandPalette => Some(Dialog::CommandPalette),
            AppAction::SwitchTheme => Some(Dialog::ThemePicker),
            AppAction::RenameSession => Some(Dialog::RenameSession),
            AppAction::RenameTab => Some(Dialog::RenameTab),
            AppAction::DitchSession => Some(Dialog::DitchSession),
            AppAction::EditSpace => Some(Dialog::EditSpace(active_space)),
            AppAction::CreateSpace => Some(Dialog::CreateSpace),
            AppAction::ShowKeybinds => Some(Dialog::Keybinds),
            _ => None,
        },
        _ => None,
    }
}

/// The catalog command that performs an app action, for the actions the command palette
/// lists.
pub open spec fn app_action_command(a: AppAction) -> Option<Command> {
    match a {
        AppAction::ReloadConfig => Some(Command::ReloadConfig),
        AppAction::Ignore => Some(Command::Ignore),
        AppAction::NewWindow => Some(Command::NewWindow),
        AppAction::NewMuxSession => Some(Command::NewSession),
        AppAction::SessionPicker => Some(Command::SwitchSession),
        AppAction::CommandPalette => Some(Command::CommandPalette),
        AppAction::ChangeAppearance(AppearanceMode::System) => Some(Command::UseSystemAppearance),
        AppAction::ChangeAppearance(AppearanceMode::Light) => Some(Command::UseLightAppearance),
        AppAction::ChangeAppearance(AppearanceMode::Dark) => Some(Command::UseDarkAppearance),
        AppAction::SwitchTheme => Some(Command::SwitchTheme),
        AppAction::RenameSession => Some(Command::RenameSession),
        AppAction::RenameTab => Some(Command::RenameTab),
        AppAction::DitchSession => Some(Command::DitchSession),
        AppAction::ShowKeybinds => Some(Command::KeyboardShortcuts),
        AppAction::Close => Some(Command::CloseWindow),
        AppAction::OpenSettings => Some(Command::OpenSettings),
        AppAction::ToggleFullscreen => Some(Command::ToggleFullscreen),
        AppAction::ToggleSidebarFocus => Some(Command::FocusSidebar),
        AppAction::ToggleSidebarVisibility => Some(Command::ToggleSidebar),
        _ => None,
    }
}

/// The binding name of the action that opens a dialog.
pub open spec fn dialog_name(d: Dialog) -> Seq<char> {
    match d {
        Dialog::NewSession => "new_mux_session"@,
        Dialog::SessionPicker => "session_picker"@,
        Dialog::CommandPalette => "command_palette"@,
        Dialog::ThemePicker => "switch_theme"@,
        Dialog::RenameSession => "rename_session"@,
        Dialog::RenameTab => "rename_tab"@,
        Dialog::DitchSession => "ditch_session"@,
        Dialog::EditSpace(_) => "edit_space"@,
        Dialog::CreateSpace => "create_space"@,
        Dialog::Keybinds => "show_keybinds"@,
        Dialog::TerminalFind => "start_search"@,
    }
}

/// A binding opens the dialog its action is named for: the action's catalog command has the
/// dialog's name (a new window starts with the new-session dialog). Different actions open
/// different dialogs, apart from the new window and the new session sharing one.
pub proof fn lemma_bindings_open_their_own_dialogs(a: AppAction, b: AppAction, s: SpaceId)
    ensures
        dialog_for(KeybindAction::App(a), s) matches Some(d) ==> match app_action_command(a) {
            Some(c) => action_of(c) == dialog_name(d) || (a == AppAction::NewWindow
                && d == Dialog::NewSession),
            None => a == AppAction::EditSpace && d == Dialog::EditSpace(s) || a
                == AppAction::CreateSpace && d == Dialog::CreateSpace,
        },
        a != b && dialog_for(KeybindAction::App(a), s) is Some && dialog_for(KeybindAction::App(b), s)
            == dialog_for(KeybindAction::App(a), s) ==> (a == AppAction::NewWindow || a
            == AppAction::NewMuxSession) && (b == AppAction::NewWindow || b == AppAction::NewMuxSession),
{
}

/// The work a binding starts; space navigation goes to the space it lands on, if any.
pub open spec fn work_for(a: KeybindAction, spaces: Seq<SpaceSummary>, active_space: SpaceId) -> KeybindWork {
    match a {
        KeybindAction::App(app) => match app {
            AppAction::ReloadConfig => KeybindWork::ReloadConfig,
            AppAction::ChangeAppearance(mode) => KeybindWork::PersistAppearance(mode),
            AppAction::CloseSpace => KeybindWork::CloseSpace(active_space),
            AppAction::NextSpace => match relative_space(spaces, 1) {
                Some(id) => KeybindWork::ActivateSpace(id),
                None => KeybindWork::Nothing,
            },
            AppAction::PreviousSpace => match relative_space(spaces, -1) {
                Some(id) => KeybindWork::ActivateSpace(id),
                None => KeybindWork::Nothing,
            },
            AppAction::SelectSpace(index) => match indexed_space(spaces, index) {
                Some(id) => KeybindWork::ActivateSpace(id),
                None => KeybindWork::Nothing,
            },
            _ => KeybindWork::Nothing,
        },
        KeybindAction::Mux(m) => KeybindWork::Mux(m),
        KeybindAction::Terminal(t) => KeybindWork::Terminal(t),
    }
}

/// Whether the binding requests a repaint itself: every dialog but the new-session one, closing
/// a space, the sidebar toggles and multiplexer actions.
pub open spec fn repaints(a: KeybindAction) -> bool {
    match a {
        KeybindAction::App(app) => match app {
            AppAction::SessionPicker | AppAction::CommandPalette | AppAction::SwitchTheme
            | AppAction::RenameSession | AppAction::RenameTab | AppAction::DitchSession
            | AppAction::EditSpace | AppAction::CreateSpace | AppAction::CloseSpace
            | AppAction::ShowKeybinds | AppAction::ToggleSidebarFocus
            | AppAction::ToggleSidebarVisibility => true,
            _ => false,
        },
        KeybindAction::Mux(_) => true,
        KeybindAction::Terminal(_) => false,
    }
}

/// The requests of a fullscreen toggle: fullscreen on or off, then maximize or restore when
/// the plan says so.
pub open spec fn fullscreen_requests(t: FullscreenToggle) -> Seq<WindowRequest> {
    match t.set_maximized {
        Some(m) => seq![WindowRequest::SetFullscreen(t.set_fullscreen), WindowRequest::SetMaximized(m)],
        None => seq![WindowRequest::SetFullscreen(t.set_fullscreen)],
    }
}

/// Everything a binding asks of the window, in order.
pub open spec fn requests_for(a: KeybindAction, f: KeybindFacts) -> Seq<WindowRequest> {
    if a == KeybindAction::App(AppAction::Close) {
        seq![WindowRequest::CloseWindow]
    } else if a == KeybindAction::App(AppAction::OpenSettings) {
        seq![WindowRequest::OpenSettings]
    } else if a == KeybindAction::App(AppAction::ToggleFullscreen) {
        fullscreen_requests(
            fullscreen_toggle(f.window, f.platform_handles_frame, f.non_native_active, f.viewport),
        )
    } else if repaints(a) {
        seq![WindowRequest::RequestRepaint]
    } else {
        Seq::empty()
    }
}

/// The sidebar after a binding.
pub open spec fn sidebar_after(a: KeybindAction, s: SidebarState) -> SidebarState {
    if a == KeybindAction::App(AppAction::ToggleSidebarFocus) {
        sidebar_focus_toggled(s)
    } else if a == KeybindAction::App(AppAction::ToggleSidebarVisibility) {
        sidebar_visibility_toggled(s)
    } else {
        s
    }
}

fn space_work(target: Option<SpaceId>) -> (w: KeybindWork)
    ensures
        w == match target {
            Some(id) => KeybindWork::ActivateSpace(id),
            None => KeybindWork::Nothing,
        },
{
    match target {
        Some(id) => KeybindWork::ActivateSpace(id),
        None => KeybindWork::Nothing,
    }
}

/// Decides a binding (see `dialog_for`, `work_for`, `requests_for`, `sidebar_after`).
pub fn keybind_plan(action: KeybindAction, facts: &KeybindFacts) -> (r: KeybindStep)
    ensures
        r.dialog == dialog_for(action, facts.active_space),
        r.work == work_for(action, facts.spaces@, facts.active_space),
        r.requests@ == requests_for(action, *facts),
        r.fullscreen == if action == KeybindAction::App(AppAction::ToggleFullscreen) {
            Some(
                fullscreen_toggle(
                    facts.window,
                    facts.platform_handles_frame,
                    facts.non_native_active,
                    facts.viewport,
                ),
            )
        } else {
            None
        },
        r.close_overlays == (action == KeybindAction::App(AppAction::ToggleSidebarFocus)),
        r.sidebar == sidebar_after(action, facts.sidebar),
        r.reset_hover == (action == KeybindAction::App(AppAction::ToggleSidebarFocus)
            && facts.sidebar.focus != InputFocus::Sidebar),
{
    let dialog = match action {
        KeybindAction::App(app) => match app {
            AppAction::NewWindow | AppAction::NewMuxSession => Some(Dialog::NewSession),
            AppAction::SessionPicker => Some(Dialog::SessionPicker),
            AppAction::CommandPalette => Some(Dialog::CommandPalette),
            AppAction::SwitchTheme => Some(Dialog::ThemePicker),
            AppAction::RenameSession => Some(Dialog::RenameSession),
            AppAction::RenameTab => Some(Dialog::RenameTab),
            AppAction::DitchSession => Some(Dialog::DitchSession),
            AppAction::EditSpace => Some(Dialog::EditSpace(facts.active_space)),
            AppAction::CreateSpace => Some(Dialog::CreateSpace),
            AppAction::ShowKeybinds => Some(Dialog::Keybinds),
            _ => None,
        },
        _ => None,
    };
    let work = match action {
        KeybindAction::App(app) => match app {
            AppAction::ReloadConfig => KeybindWork::ReloadConfig,
            AppAction::ChangeAppearance(mode) => KeybindWork::PersistAppearance(mode),
            AppAction::CloseSpace => KeybindWork::CloseSpace(facts.active_space),
            AppAction::NextSpace => space_work(relative_space_target(facts.spaces.as_slice(), 1)),
            AppAction::PreviousSpace => space_work(relative_space_target(facts.spaces.as_slice(), -1)),
            AppAction::SelectSpace(index) => space_work(select_space_target(facts.spaces.as_slice(), index)),
            _ => KeybindWork::Nothing,
        },
        KeybindAction::Mux(m) => KeybindWork::Mux(m),
        KeybindAction::Terminal(t) => KeybindWork::Terminal(t),
    };
    let repaint = match action {
        KeybindAction::App(app) => match app {
            AppAction::SessionPicker | AppAction::CommandPalette | AppAction::SwitchTheme
            | AppAction::RenameSession | AppAction::RenameTab | AppAction::DitchSession
            | AppAction::EditSpace | AppAction::CreateSpace | AppAction::CloseSpace
            | AppAction::ShowKeybinds | AppAction::ToggleSidebarFocus
            | AppAction::ToggleSidebarVisibility => true,
            _ => false,
        },
        KeybindAction::Mux(_) => true,
        KeybindAction::Terminal(_) => false,
    };
    let mut requests: Vec<WindowRequest> = Vec::new();
    let mut fullscreen: Option<FullscreenToggle> = None;
    if action == KeybindAction::App(AppAction::Close) {
        requests.push(WindowRequest::CloseWindow);
    } else if action == KeybindAction::App(AppAction::OpenSettings) {
        requests.push(WindowRequest::OpenSettings);
    } else if action == KeybindAction::App(AppAction::ToggleFullscreen) {
        let t = toggle_fullscreen(
            &facts.window,
            facts.platform_handles_frame,
            facts.non_native_active,
            facts.viewport,
        );
        requests.push(WindowRequest::SetFullscreen(t.set_fullscreen));
        match t.set_maximized {
            Some(m) => requests.push(WindowRequest::SetMaximized(m)),
            None => {},
        }
        fullscreen = Some(t);
    } else if repaint {
        requests.push(WindowRequest::RequestRepaint);
    }
    proof {
        assert(requests@ =~= requests_for(action, *facts));
    }
    let focus_toggle = action == KeybindAction::App(AppAction::ToggleSidebarFocus);
    let sidebar = if focus_toggle {
        toggle_sidebar_focus(facts.sidebar)
    } else if action == KeybindAction::App(AppAction::ToggleSidebarVisibility) {
        toggle_sidebar_visibility(facts.sidebar)
    } else {
        facts.sidebar
    };
    KeybindStep {
        dialog,
        work,
        requests,
        fullscreen,
        close_overlays: focus_toggle,
        sidebar,
        reset_hover: focus_toggle && facts.sidebar.focus != InputFocus::Sidebar,
    }
}

/// No binding both opens a dialog and starts work, and closing the window does nothing else.
pub proof fn lemma_keybind_steps_do_one_thing(a: KeybindAction, f: KeybindFacts)
    ensures
        dialog_for(a, f.active_space) is Some ==> work_for(a, f.spaces@, f.active_space)
            == KeybindWork::Nothing,
        a == KeybindAction::App(AppAction::Close) ==> requests_for(a, f) == seq![WindowRequest::CloseWindow]
            && dialog_for(a, f.active_space) is None && work_for(a, f.spaces@, f.active_space)
            == KeybindWork::Nothing,
{
}

/// What the copy binding does with the terminal's plain-text copy of its selection.
pub struct CopyPlan {
    /// The text to put on the clipboard.
    pub clipboard: Option<Vec<u8>>,
    /// The error to show.
    pub error: Option<String>,
    /// Whether the selection was copied; when it was not, the window is asked to copy instead
    /// (the UI's own selection, if any).
    pub copied: bool,
}

/// Decides the copy binding from the terminal's answer: a selection goes to the clipboard;
/// without one, or when formatting it failed (the error is shown), the window copies instead.
pub fn copy_selection_or_request_copy(selection: Result<Option<Vec<u8>>, String>) -> (r: CopyPlan)
    ensures
        match selection {
            Ok(Some(text)) => r.clipboard == Some(text) && r.error is None && r.copied,
            Ok(None) => r.clipboard is None && r.error is None && !r.copied,
            Err(e) => r.clipboard is None && r.error == Some(e) && !r.copied,
        },
{
    match selection {
        Ok(Some(text)) => CopyPlan { clipboard: Some(text), error: None, copied: true },
        Ok(None) => CopyPlan { clipboard: None, error: None, copied: false },
        Err(e) => CopyPlan { clipboard: None, error: Some(e), copied: false },
    }
}

/// Space bindings move from the active space: the next one lands on the space listed right
/// after it, the previous one on the space right before it, and a numbered one on that place
/// in the list (counting from one). The sidebar bindings do what their names say: focusing
/// sends input to a shown sidebar (or back to the terminal from it), and the visibility binding
/// flips whether the sidebar shows; no other binding touches the sidebar.
pub proof fn lemma_space_and_sidebar_bindings(f: KeybindFacts, a: KeybindAction, n: u32)
    ensures
        work_for(KeybindAction::App(AppAction::NextSpace), f.spaces@, f.active_space) matches KeybindWork::ActivateSpace(id)
            ==> (first_active_from(f.spaces@, 0) matches Some(k) && k + 1 < f.spaces@.len() && f.spaces@[k + 1].id == id),
        work_for(KeybindAction::App(AppAction::PreviousSpace), f.spaces@, f.active_space) matches KeybindWork::ActivateSpace(id)
            ==> (first_active_from(f.spaces@, 0) matches Some(k) && k >= 1 && f.spaces@[k - 1].id == id),
        work_for(KeybindAction::App(AppAction::SelectSpace(n)), f.spaces@, f.active_space) matches KeybindWork::ActivateSpace(id)
            ==> 1 <= n <= f.spaces@.len() && f.spaces@[n - 1].id == id,
        f.sidebar.focus != InputFocus::Sidebar ==> sidebar_after(
            KeybindAction::App(AppAction::ToggleSidebarFocus),
            f.sidebar,
        ).focus == InputFocus::Sidebar && sidebar_after(
            KeybindAction::App(AppAction::ToggleSidebarFocus),
            f.sidebar,
        ).sidebar_visible,
        f.sidebar.focus == InputFocus::Sidebar ==> sidebar_after(
            KeybindAction::App(AppAction::ToggleSidebarFocus),
            f.sidebar,
        ).focus == InputFocus::Terminal,
        sidebar_after(KeybindAction::App(AppAction::ToggleSidebarVisibility), f.sidebar).sidebar_visible
            == !f.sidebar.sidebar_visible,
        a != KeybindAction::App(AppAction::ToggleSidebarFocus) && a != KeybindAction::App(
            AppAction::ToggleSidebarVisibility,
        ) ==> sidebar_after(a, f.sidebar) == f.sidebar,
{
}

} // verus!
