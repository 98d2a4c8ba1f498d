//! The user-facing command vocabulary: every action the command palette runs and the
//! keybinding editor offers, with its title, description, binding-action name and icon.
use vstd::prelude::*;

use crate::text::str_eq;

verus! {

/// A user-facing command. Declaration order is the display order in both the palette and the
/// editor dropdown: palette commands first, editor-only ones (parameterized or low-level) after.
#[derive(Clone, Copy, Debug, PartialEq, Eq, Structural)]
pub enum Command {
    NewSession,
    SwitchSession,
    RenameSession,
    DitchSession,
    NextSession,
    PreviousSession,
    LastSession,
    NewTab,
    NextTab,
    PreviousTab,
    LastTab,
    MoveTabLeft,
    MoveTabRight,
    RenameTab,
    SplitRight,
    SplitDown,
    NextPane,
    PreviousPane,
    TogglePaneZoom,
    KillPane,
    ClosePane,
    NewWindow,
    ToggleSidebar,
    FocusSidebar,
    ToggleFullscreen,
    ScrollToTop,
    ScrollToBottom,
    CopyMode,
    IncreaseFontSize,
    DecreaseFontSize,
    ResetFontSize,
    Find,
    KeyboardShortcuts,
    UseSystemAppearance,
    UseLightAppearance,
    UseDarkAppearance,
    SwitchTheme,
    OpenSettings,
    ReloadConfig,
    Quit,
    CommandPalette,
    CloseWindow,
    Ignore,
    SelectTab,
    MoveTab,
    SelectPane,
    SelectSession,
    MoveSession,
    ScrollPageUp,
    ScrollPageDown,
    ScrollPageLines,
    SetFontSize,
    Copy,
    Paste,
    SendCsi,
    SendEsc,
    SendText,
}

/// Every command, in display order.
pub open spec fn all_commands() -> Seq<Command> {
    seq![
        Command::NewSession,
        Command::SwitchSession,
        Command::RenameSession,
        Command::DitchSession,
        Command::NextSession,
        Command::PreviousSession,
        Command::LastSession,
        Command::NewTab,
        Command::NextTab,
        Command::PreviousTab,
        Command::LastTab,
        Command::MoveTabLeft,
        Command::MoveTabRight,
        Command::RenameTab,
        Command::SplitRight,
        Command::SplitDown,
        Command::NextPane,
        Command::PreviousPane,
        Command::TogglePaneZoom,
        Command::KillPane,
        Command::ClosePane,
        Command::NewWindow,
        Command::ToggleSidebar,
        Command::FocusSidebar,
        Command::ToggleFullscreen,
        Command::ScrollToTop,
        Command::ScrollToBottom,
        Command::CopyMode,
        Command::IncreaseFontSize,
        Command::DecreaseFontSize,
        Command::ResetFontSize,
        Command::Find,
        Command::KeyboardShortcuts,
        Command::UseSystemAppearance,
        Command::UseLightAppearance,
        Command::UseDarkAppearance,
        Command::SwitchTheme,
        Command::OpenSettings,
        Command::ReloadConfig,
        Command::Quit,
        Command::CommandPalette,
        Command::CloseWindow,
        Command::Ignore,
        Command::SelectTab,
        Command::MoveTab,
        Command::SelectPane,
        Command::SelectSession,
        Command::MoveSession,
        Command::ScrollPageUp,
        Command::ScrollPageDown,
        Command::ScrollPageLines,
        Command::SetFontSize,
        Command::Copy,
        Command::Paste,
        Command::SendCsi,
        Command::SendEsc,
        Command::SendText,
    ]
}

/// The position of a command in display order.
pub open spec fn command_position(c: Command) -> int {
    match c {
        Command::NewSession => 0,
        Command::SwitchSession => 1,
        Command::RenameSession => 2,
        Command::DitchSession => 3,
        Command::NextSession => 4,
        Command::PreviousSession => 5,
        Command::LastSession => 6,
        Command::NewTab => 7,
        Command::NextTab => 8,
        Command::PreviousTab => 9,
        Command::LastTab => 10,
        Command::MoveTabLeft => 11,
        Command::MoveTabRight => 12,
        Command::RenameTab => 13,
        Command::SplitRight => 14,
        Command::SplitDown => 15,
        Command::NextPane => 16,
        Command::PreviousPane => 17,
        Command::TogglePaneZoom => 18,
        Command::KillPane => 19,
        Command::ClosePane => 20,
        Command::NewWindow => 21,
        Command::ToggleSidebar => 22,
        Command::FocusSidebar => 23,
        Command::ToggleFullscreen => 24,
        Command::ScrollToTop => 25,
        Command::ScrollToBottom => 26,
        Command::CopyMode => 27,
        Command::IncreaseFontSize => 28,
        Command::DecreaseFontSize => 29,
        Command::ResetFontSize => 30,
        Command::Find => 31,
        Command::KeyboardShortcuts => 32,
        Command::UseSystemAppearance => 33,
        Command::UseLightAppearance => 34,
        Command::UseDarkAppearance => 35,
        Command::SwitchTheme => 36,
        Command::OpenSettings => 37,
        Command::ReloadConfig => 38,
        Command::Quit => 39,
        Command::CommandPalette => 40,
        Command::CloseWindow => 41,
        Command::Ignore => 42,
        Command::SelectTab => 43,
        Command::MoveTab => 44,
        Command::SelectPane => 45,
        Command::SelectSession => 46,
        Command::MoveSession => 47,
        Command::ScrollPageUp => 48,
        Command::ScrollPageDown => 49,
        Command::ScrollPageLines => 50,
        Command::SetFontSize => 51,
        Command::Copy => 52,
        Command::Paste => 53,
        Command::SendCsi => 54,
        Command::SendEsc => 55,
        Command::SendText => 56,
    }
}

/// The human title of a command.
pub open spec fn title_of(c: Command) -> Seq<char> {
    match c {
        Command::NewSession => "New Session"@,
        Command::SwitchSession => "Switch Session"@,
        Command::RenameSession => "Rename Session"@,
        Command::DitchSession => "Ditch Session"@,
        Command::NextSession => "Next Session"@,
        Command::PreviousSession => "Previous Session"@,
        Command::LastSession => "Last Session"@,
        Command::NewTab => "New Tab"@,
        Command::NextTab => "Next Tab"@,
        Command::PreviousTab => "Previous Tab"@,
        Command::LastTab => "Last Tab"@,
        Command::MoveTabLeft => "Move Tab Left"@,
        Command::MoveTabRight => "Move Tab Right"@,
        Command::RenameTab => "Rename Tab"@,
        Command::SplitRight => "Split Right"@,
        Command::SplitDown => "Split Down"@,
        Command::NextPane => "Next Pane"@,
        Command::PreviousPane => "Previous Pane"@,
        Command::TogglePaneZoom => "Toggle Pane Zoom"@,
        Command::KillPane => "Kill Pane"@,
        Command::ClosePane => "Close Pane"@,
        Command::NewWindow => "New Window"@,
        Command::ToggleSidebar => "Toggle Sidebar"@,
        Command::FocusSidebar => "Focus Sidebar"@,
        Command::ToggleFullscreen => "Toggle Fullscreen"@,
        Command::ScrollToTop => "Scroll to Top"@,
        Command::ScrollToBottom => "Scroll to Bottom"@,
        Command::CopyMode => "Copy Mode"@,
        Command::IncreaseFontSize => "Increase Font Size"@,
        Command::DecreaseFontSize => "Decrease Font Size"@,
        Command::ResetFontSize => "Reset Font Size"@,
        Command::Find => "Find in Terminal"@,
        Command::KeyboardShortcuts => "Keyboard Shortcuts"@,
        Command::UseSystemAppearance => "Use System Appearance"@,
        Command::UseLightAppearance => "Use Light Appearance"@,
        Command::UseDarkAppearance => "Use Dark Appearance"@,
        Command::SwitchTheme => "Switch Theme"@,
        Command::OpenSettings => "Settings"@,
        Command::ReloadConfig => "Reload Config"@,
        Command::Quit => "Quit Bootty"@,
        Command::CommandPalette => "Command Palette"@,
        Command::CloseWindow => "Close Window"@,
        Command::Ignore => "Ignore"@,
        Command::SelectTab => "Select Tab"@,
        Command::MoveTab => "Move Tab"@,
        Command::SelectPane => "Select Pane"@,
        Command::SelectSession => "Select Session"@,
        Command::MoveSession => "Move Session"@,
        Command::ScrollPageUp => "Scroll Page Up"@,
        Command::ScrollPageDown => "Scroll Page Down"@,
        Command::ScrollPageLines => "Scroll Lines"@,
        Command::SetFontSize => "Set Font Size"@,
        Command::Copy => "Copy"@,
        Command::Paste => "Paste"@,
        Command::SendCsi => "Send CSI"@,
        Command::SendEsc => "Send ESC"@,
        Command::SendText => "Send Text"@,
    }
}

/// The one-line description of a command.
pub open spec fn description_of(c: Command) -> Seq<char> {
    match c {
        Command::NewSession => "Pick a directory or worktree and start a session"@,
        Command::SwitchSession => "Fuzzy-find and jump to an open session"@,
        Command::RenameSession => "Rename the current session"@,
        Command::DitchSession => "Close the session and optionally remove its worktree"@,
        Command::NextSession => "Activate the next session"@,
        Command::PreviousSession => "Activate the previous session"@,
        Command::LastSession => "Toggle back to the most recent session"@,
        Command::NewTab => "Open a new tab in the current session"@,
        Command::NextTab => "Activate the next tab"@,
        Command::PreviousTab => "Activate the previous tab"@,
        Command::LastTab => "Toggle back to the most recently used tab"@,
        Command::MoveTabLeft => "Reorder the current tab one position left"@,
        Command::MoveTabRight => "Reorder the current tab one position right"@,
        Command::RenameTab => "Rename the current tab"@,
        Command::SplitRight => "Split the current pane horizontally"@,
        Command::SplitDown => "Split the current pane vertically"@,
        Command::NextPane => "Move focus to the next pane"@,
        Command::PreviousPane => "Move focus to the previous pane"@,
        Command::TogglePaneZoom => "Zoom the focused pane to fill the window, or restore it"@,
        Command::KillPane => "Close the focused pane"@,
        Command::ClosePane => "Close the active pane, cascading to the tab"@,
        Command::NewWindow => "Open a new top-level window"@,
        Command::ToggleSidebar => "Show or hide the session sidebar"@,
        Command::FocusSidebar => "Move keyboard focus to the sidebar"@,
        Command::ToggleFullscreen => "Enter or leave fullscreen"@,
        Command::ScrollToTop => "Jump to the top of the scrollback"@,
        Command::ScrollToBottom => "Jump to the latest output"@,
        Command::CopyMode => "Enter tmux-style scrollback navigation and text selection"@,
        Command::IncreaseFontSize => "Make the terminal text larger"@,
        Command::DecreaseFontSize => "Make the terminal text smaller"@,
        Command::ResetFontSize => "Restore the configured font size"@,
        Command::Find => "Search the terminal scrollback"@,
        Command::KeyboardShortcuts => "Browse the active keybindings"@,
        Command::UseSystemAppearance => "Follow the operating system light/dark appearance"@,
        Command::UseLightAppearance => "Switch Bootty to the configured light appearance branch"@,
        Command::UseDarkAppearance => "Switch Bootty to the configured dark appearance branch"@,
        Command::SwitchTheme => "Pick a theme for the active light or dark appearance branch"@,
        Command::OpenSettings => "Open the settings surface"@,
        Command::ReloadConfig => "Re-read the config file from disk"@,
        Command::Quit => "Close the application"@,
        Command::CommandPalette => "Search and run any command"@,
        Command::CloseWindow => "Close the current window"@,
        Command::Ignore => "Do nothing — mask a default binding so the keys pass through"@,
        Command::SelectTab => "Jump to tab N (value 1–9)"@,
        Command::MoveTab => "Reorder the current tab by N"@,
        Command::SelectPane => "Focus the pane in a direction (left/right/up/down)"@,
        Command::SelectSession => "Jump to session N (value 1–9)"@,
        Command::MoveSession => "Reorder the current session by N"@,
        Command::ScrollPageUp => "Scroll up one page"@,
        Command::ScrollPageDown => "Scroll down one page"@,
        Command::ScrollPageLines => "Scroll by N lines (negative scrolls up)"@,
        Command::SetFontSize => "Set the font size to N points"@,
        Command::Copy => "Copy the selection to the clipboard"@,
        Command::Paste => "Paste from the clipboard"@,
        Command::SendCsi => "Write a CSI escape sequence to the terminal"@,
        Command::SendEsc => "Write an ESC sequence to the terminal"@,
        Command::SendText => "Write literal text to the terminal"@,
    }
}

/// The binding-action name of a command.
pub open spec fn action_of(c: Command) -> Seq<char> {
    match c {
        Command::NewSession => "new_mux_session"@,
        Command::SwitchSession => "session_picker"@,
        Command::RenameSession => "rename_session"@,
        Command::DitchSession => "ditch_session"@,
        Command::NextSession => "next_session"@,
        Command::PreviousSession => "previous_session"@,
        Command::LastSession => "last_session"@,
        Command::NewTab => "new_tab"@,
        Command::NextTab => "next_tab"@,
        Command::PreviousTab => "previous_tab"@,
        Command::LastTab => "last_tab"@,
        Command::MoveTabLeft => "move_tab:-1"@,
        Command::MoveTabRight => "move_tab:1"@,
        Command::RenameTab => "rename_tab"@,
        Command::SplitRight => "split_right"@,
        Command::SplitDown => "split_down"@,
        Command::NextPane => "next_pane"@,
        Command::PreviousPane => "previous_pane"@,
        Command::TogglePaneZoom => "toggle_pane_zoom"@,
        Command::KillPane => "kill_pane"@,
        Command::ClosePane => "close_surface"@,
        Command::NewWindow => "new_window"@,
        Command::ToggleSidebar => "toggle_sidebar_visibility"@,
        Command::FocusSidebar => "toggle_sidebar_focus"@,
        Command::ToggleFullscreen => "toggle_fullscreen"@,
        Command::ScrollToTop => "scroll_to_top"@,
        Command::ScrollToBottom => "scroll_to_bottom"@,
        Command::CopyMode => "copy_mode"@,
        Command::IncreaseFontSize => "increase_font_size"@,
        Command::DecreaseFontSize => "decrease_font_size"@,
        Command::ResetFontSize => "reset_font_size"@,
        Command::Find => "start_search"@,
        Command::KeyboardShortcuts => "show_keybinds"@,
        Command::UseSystemAppearance => "change_appearance:system"@,
        Command::UseLightAppearance => "change_appearance:light"@,
        Command::UseDarkAppearance => "change_appearance:dark"@,
        Command::SwitchTheme => "switch_theme"@,
        Command::OpenSettings => "open_settings"@,
        Command::ReloadConfig => "reload_config"@,
        Command::Quit => "quit"@,
        Command::CommandPalette => "command_palette"@,
        Command::CloseWindow => "close_window"@,
        Command::Ignore => "ignore"@,
        Command::SelectTab => "select_tab"@,
        Command::MoveTab => "move_tab"@,
        Command::SelectPane => "select_pane"@,
        Command::SelectSession => "select_session"@,
        Command::MoveSession => "move_session"@,
        Command::ScrollPageUp => "scroll_page_up"@,
        Command::ScrollPageDown => "scroll_page_down"@,
        Command::ScrollPageLines => "scroll_page_lines"@,
        Command::SetFontSize => "set_font_size"@,
        Command::Copy => "copy_to_clipboard"@,
        Command::Paste => "paste_from_clipboard"@,
        Command::SendCsi => "csi"@,
        Command::SendEsc => "esc"@,
        Command::SendText => "text"@,
    }
}

/// The icon slug of a command.
pub open spec fn icon_of(c: Command) -> Seq<char> {
    match c {
        Command::NewSession => "square-plus"@,
        Command::SwitchSession => "terminal"@,
        Command::RenameSession => "pencil"@,
        Command::DitchSession => "trash-2"@,
        Command::NextSession => "chevron-down"@,
        Command::PreviousSession => "chevron-up"@,
        Command::LastSession => "history"@,
        Command::NewTab => "plus"@,
        Command::NextTab => "chevron-right"@,
        Command::PreviousTab => "chevron-left"@,
        Command::LastTab => "arrow-right-to-line"@,
        Command::MoveTabLeft => "move-horizontal"@,
        Command::MoveTabRight => "move-horizontal"@,
        Command::RenameTab => "pencil"@,
        Command::SplitRight => "columns-2"@,
        Command::SplitDown => "rows-2"@,
        Command::NextPane => "layout-grid"@,
        Command::PreviousPane => "layout-grid"@,
        Command::TogglePaneZoom => "maximize-2"@,
        Command::KillPane => "x"@,
        Command::ClosePane => "square-x"@,
        Command::NewWindow => "app-window"@,
        Command::ToggleSidebar => "panel-left"@,
        Command::FocusSidebar => "panel-left-open"@,
        Command::ToggleFullscreen => "maximize"@,
        Command::ScrollToTop => "arrow-up-to-line"@,
        Command::ScrollToBottom => "arrow-down-to-line"@,
        Command::CopyMode => "copy"@,
        Command::IncreaseFontSize => "zoom-in"@,
        Command::DecreaseFontSize => "zoom-out"@,
        Command::ResetFontSize => "type"@,
        Command::Find => "search"@,
        Command::KeyboardShortcuts => "keyboard"@,
        Command::UseSystemAppearance => "sun-moon"@,
        Command::UseLightAppearance => "sun-moon"@,
        Command::UseDarkAppearance => "sun-moon"@,
        Command::SwitchTheme => "palette"@,
        Command::OpenSettings => "settings"@,
        Command::ReloadConfig => "refresh-cw"@,
        Command::Quit => "power"@,
        Command::CommandPalette => "search"@,
        Command::CloseWindow => "x"@,
        Command::Ignore => "ban"@,
        Command::SelectTab => "hash"@,
        Command::MoveTab => "move-horizontal"@,
        Command::SelectPane => "layout"@,
        Command::SelectSession => "hash"@,
        Command::MoveSession => "move-vertical"@,
        Command::ScrollPageUp => "chevrons-up"@,
        Command::ScrollPageDown => "chevrons-down"@,
        Command::ScrollPageLines => "list"@,
        Command::SetFontSize => "type"@,
        Command::Copy => "copy"@,
        Command::Paste => "clipboard"@,
        Command::SendCsi => "terminal"@,
        Command::SendEsc => "terminal"@,
        Command::SendText => "terminal"@,
    }
}

/// The action string the palette dispatches for a command, `None` for editor-only commands.
pub open spec fn palette_action_of(c: Command) -> Option<Seq<char>> {
    match c {
        Command::NewSession => Some(action_of(Command::NewSession)),
        Command::SwitchSession => Some(action_of(Command::SwitchSession)),
        Command::RenameSession => Some(action_of(Command::RenameSession)),
        Command::DitchSession => Some(action_of(Command::DitchSession)),
        Command::NextSession => Some(action_of(Command::NextSession)),
        Command::PreviousSession => Some(action_of(Command::PreviousSession)),
        Command::LastSession => Some(action_of(Command::LastSession)),
        Command::NewTab => Some(action_of(Command::NewTab)),
        Command::NextTab => Some(action_of(Command::NextTab)),
        Command::PreviousTab => Some(action_of(Command::PreviousTab)),
        Command::LastTab => Some(action_of(Command::LastTab)),
        Command::MoveTabLeft => Some("move_tab:-1"@),
        Command::MoveTabRight => Some("move_tab:1"@),
        Command::RenameTab => Some(action_of(Command::RenameTab)),
        Command::SplitRight => Some(action_of(Command::SplitRight)),
        Command::SplitDown => Some(action_of(Command::SplitDown)),
        Command::NextPane => Some(action_of(Command::NextPane)),
        Command::PreviousPane => Some(action_of(Command::PreviousPane)),
        Command::TogglePaneZoom => Some(action_of(Command::TogglePaneZoom)),
        Command::KillPane => Some(action_of(Command::KillPane)),
        Command::ClosePane => Some(action_of(Command::ClosePane)),
        Command::NewWindow => Some(action_of(Command::NewWindow)),
        Command::ToggleSidebar => Some(action_of(Command::ToggleSidebar)),
        Command::FocusSidebar => Some(action_of(Command::FocusSidebar)),
        Command::ToggleFullscreen => Some(action_of(Command::ToggleFullscreen)),
        Command::ScrollToTop => Some(action_of(Command::ScrollToTop)),
        Command::ScrollToBottom => Some(action_of(Command::ScrollToBottom)),
        Command::CopyMode => Some(action_of(Command::CopyMode)),
        Command::IncreaseFontSize => Some("increase_font_size:1"@),
        Command::DecreaseFontSize => Some("decrease_font_size:1"@),
        Command::ResetFontSize => Some(action_of(Command::ResetFontSize)),
        Command::Find => Some(action_of(Command::Find)),
        Command::KeyboardShortcuts => Some(action_of(Command::KeyboardShortcuts)),
        Command::UseSystemAppearance => Some(action_of(Command::UseSystemAppearance)),
        Command::UseLightAppearance => Some(action_of(Command::UseLightAppearance)),
        Command::UseDarkAppearance => Some(action_of(Command::UseDarkAppearance)),
        Command::SwitchTheme => Some(action_of(Command::SwitchTheme)),
        Command::OpenSettings => Some(action_of(Command::OpenSettings)),
        Command::ReloadConfig => Some(action_of(Command::ReloadConfig)),
        Command::Quit => Some(action_of(Command::Quit)),
        Command::CommandPalette => None,
        Command::CloseWindow => None,
        Command::Ignore => None,
        Command::SelectTab => None,
        Command::MoveTab => None,
        Command::SelectPane => None,
        Command::SelectSession => None,
        Command::MoveSession => None,
        Command::ScrollPageUp => None,
        Command::ScrollPageDown => None,
        Command::ScrollPageLines => None,
        Command::SetFontSize => None,
        Command::Copy => None,
        Command::Paste => None,
        Command::SendCsi => None,
        Command::SendEsc => None,
        Command::SendText => None,
    }
}

/// The length, first and last character of a binding-action name: enough to tell every
/// command's action name apart from every other's.
pub open spec fn action_key(s: Seq<char>) -> (nat, char, char) {
    (s.len(), s[0], s[s.len() - 1])
}

/// The command whose action name has the given key, if any.
pub open spec fn command_for_action_key(k: (nat, char, char)) -> Option<Command> {
    if k == (15nat, 'n', 'n') {
        Some(Command::NewSession)
    } else if k == (14nat, 's', 'r') {
        Some(Command::SwitchSession)
    } else if k == (14nat, 'r', 'n') {
        Some(Command::RenameSession)
    } else if k == (13nat, 'd', 'n') {
        Some(Command::DitchSession)
    } else if k == (12nat, 'n', 'n') {
        Some(Command::NextSession)
    } else if k == (16nat, 'p', 'n') {
        Some(Command::PreviousSession)
    } else if k == (12nat, 'l', 'n') {
        Some(Command::LastSession)
    } else if k == (7nat, 'n', 'b') {
        Some(Command::NewTab)
    } else if k == (8nat, 'n', 'b') {
        Some(Command::NextTab)
    } else if k == (12nat, 'p', 'b') {
        Some(Command::PreviousTab)
    } else if k == (8nat, 'l', 'b') {
        Some(Command::LastTab)
    } else if k == (11nat, 'm', '1') {
        Some(Command::MoveTabLeft)
    } else if k == (10nat, 'm', '1') {
        Some(Command::MoveTabRight)
    } else if k == (10nat, 'r', 'b') {
        Some(Command::RenameTab)
    } else if k == (11nat, 's', 't') {
        Some(Command::SplitRight)
    } else if k == (10nat, 's', 'n') {
        Some(Command::SplitDown)
    } else if k == (9nat, 'n', 'e') {
        Some(Command::NextPane)
    } else if k == (13nat, 'p', 'e') {
        Some(Command::PreviousPane)
    } else if k == (16nat, 't', 'm') {
        Some(Command::TogglePaneZoom)
    } else if k == (9nat, 'k', 'e') {
        Some(Command::KillPane)
    } else if k == (13nat, 'c', 'e') {
        Some(Command::ClosePane)
    } else if k == (10nat, 'n', 'w') {
        Some(Command::NewWindow)
    } else if k == (25nat, 't', 'y') {
        Some(Command::ToggleSidebar)
    } else if k == (20nat, 't', 's') {
        Some(Command::FocusSidebar)
    } else if k == (17nat, 't', 'n') {
        Some(Command::ToggleFullscreen)
    } else if k == (13nat, 's', 'p') {
        Some(Command::ScrollToTop)
    } else if k == (16nat, 's', 'm') {
        Some(Command::ScrollToBottom)
    } else if k == (9nat, 'c', 'e') {
        Some(Command::CopyMode)
    } else if k == (18nat, 'i', 'e') {
        Some(Command::IncreaseFontSize)
    } else if k == (18nat, 'd', 'e') {
        Some(Command::DecreaseFontSize)
    } else if k == (15nat, 'r', 'e') {
        Some(Command::ResetFontSize)
    } else if k == (12nat, 's', 'h') {
        Some(Command::Find)
    } else if k == (13nat, 's', 's') {
        Some(Command::KeyboardShortcuts)
    } else if k == (24nat, 'c', 'm') {
        Some(Command::UseSystemAppearance)
    } else if k == (23nat, 'c', 't') {
        Some(Command::UseLightAppearance)
    } else if k == (22nat, 'c', 'k') {
        Some(Command::UseDarkAppearance)
    } else if k == (12nat, 's', 'e') {
        Some(Command::SwitchTheme)
    } else if k == (13nat, 'o', 's') {
        Some(Command::OpenSettings)
    } else if k == (13nat, 'r', 'g') {
        Some(Command::ReloadConfig)
    } else if k == (4nat, 'q', 't') {
        Some(Command::Quit)
    } else if k == (15nat, 'c', 'e') {
        Some(Command::CommandPalette)
    } else if k == (12nat, 'c', 'w') {
        Some(Command::CloseWindow)
    } else if k == (6nat, 'i', 'e') {
        Some(Command::Ignore)
    } else if k == (10nat, 's', 'b') {
        Some(Command::SelectTab)
    } else if k == (8nat, 'm', 'b') {
        Some(Command::MoveTab)
    } else if k == (11nat, 's', 'e') {
        Some(Command::SelectPane)
    } else if k == (14nat, 's', 'n') {
        Some(Command::SelectSession)
    } else if k == (12nat, 'm', 'n') {
        Some(Command::MoveSession)
    } else if k == (14nat, 's', 'p') {
        Some(Command::ScrollPageUp)
    } else if k == (16nat, 's', 'n') {
        Some(Command::ScrollPageDown)
    } else if k == (17nat, 's', 's') {
        Some(Command::ScrollPageLines)
    } else if k == (13nat, 's', 'e') {
        Some(Command::SetFontSize)
    } else if k == (17nat, 'c', 'd') {
        Some(Command::Copy)
    } else if k == (20nat, 'p', 'd') {
        Some(Command::Paste)
    } else if k == (3nat, 'c', 'i') {
        Some(Command::SendCsi)
    } else if k == (3nat, 'e', 'c') {
        Some(Command::SendEsc)
    } else if k == (4nat, 't', 't') {
        Some(Command::SendText)
    } else {
        None
    }
}

/// The literal facts about one command's strings: its action name has the key the table
/// maps back to it, and its title and description are not empty.
proof fn lemma_command_strings(c: Command)
    ensures
        action_of(c).len() > 0,
        command_for_action_key(action_key(action_of(c))) == Some(c),
        title_of(c).len() > 0,
        description_of(c).len() > 0,
{
    match c {
        Command::NewSession => {
            reveal_strlit("new_mux_session");
            reveal_strlit("New Session");
            reveal_strlit("Pick a directory or worktree and start a session");
        },
        Command::SwitchSession => {
            reveal_strlit("session_picker");
            reveal_strlit("Switch Session");
            reveal_strlit("Fuzzy-find and jump to an open session");
        },
        Command::RenameSession => {
            reveal_strlit("rename_session");
            reveal_strlit("Rename Session");
            reveal_strlit("Rename the current session");
        },
        Command::DitchSession => {
            reveal_strlit("ditch_session");
            reveal_strlit("Ditch Session");
            reveal_strlit("Close the session and optionally remove its worktree");
        },
        Command::NextSession => {
            reveal_strlit("next_session");
            reveal_strlit("Next Session");
            reveal_strlit("Activate the next session");
        },
        Command::PreviousSession => {
            reveal_strlit("previous_session");
            reveal_strlit("Previous Session");
            reveal_strlit("Activate the previous session");
        },
        Command::LastSession => {
            reveal_strlit("last_session");
            reveal_strlit("Last Session");
            reveal_strlit("Toggle back to the most recent session");
        },
        Command::NewTab => {
            reveal_strlit("new_tab");
            reveal_strlit("New Tab");
            reveal_strlit("Open a new tab in the current session");
        },
        Command::NextTab => {
            reveal_strlit("next_tab");
            reveal_strlit("Next Tab");
            reveal_strlit("Activate the next tab");
        },
        Command::PreviousTab => {
            reveal_strlit("previous_tab");
            reveal_strlit("Previous Tab");
            reveal_strlit("Activate the previous tab");
        },
        Command::LastTab => {
            reveal_strlit("last_tab");
            reveal_strlit("Last Tab");
            reveal_strlit("Toggle back to the most recently used tab");
        },
        Command::MoveTabLeft => {
            reveal_strlit("move_tab:-1");
            reveal_strlit("Move Tab Left");
            reveal_strlit("Reorder the current tab one position left");
        },
        Command::MoveTabRight => {
            reveal_strlit("move_tab:1");
            reveal_strlit("Move Tab Right");
            reveal_strlit("Reorder the current tab one position right");
        },
        Command::RenameTab => {
            reveal_strlit("rename_tab");
            reveal_strlit("Rename Tab");
            reveal_strlit("Rename the current tab");
        },
        Command::SplitRight => {
            reveal_strlit("split_right");
            reveal_strlit("Split Right");
            reveal_strlit("Split the current pane horizontally");
        },
        Command::SplitDown => {
            reveal_strlit("split_down");
            reveal_strlit("Split Down");
            reveal_strlit("Split the current pane vertically");
        },
        Command::NextPane => {
            reveal_strlit("next_pane");
            reveal_strlit("Next Pane");
            reveal_strlit("Move focus to the next pane");
        },
        Command::PreviousPane => {
            reveal_strlit("previous_pane");
            reveal_strlit("Previous Pane");
            reveal_strlit("Move focus to the previous pane");
        },
        Command::TogglePaneZoom => {
            reveal_strlit("toggle_pane_zoom");
            reveal_strlit("Toggle Pane Zoom");
            reveal_strlit("Zoom the focused pane to fill the window, or restore it");
        },
        Command::KillPane => {
            reveal_strlit("kill_pane");
            reveal_strlit("Kill Pane");
            reveal_strlit("Close the focused pane");
        },
        Command::ClosePane => {
            reveal_strlit("close_surface");
            reveal_strlit("Close Pane");
            reveal_strlit("Close the active pane, cascading to the tab");
        },
        Command::NewWindow => {
            reveal_strlit("new_window");
            reveal_strlit("New Window");
            reveal_strlit("Open a new top-level window");
        },
        Command::ToggleSidebar => {
            reveal_strlit("toggle_sidebar_visibility");
            reveal_strlit("Toggle Sidebar");
            reveal_strlit("Show or hide the session sidebar");
        },
        Command::FocusSidebar => {
            reveal_strlit("toggle_sidebar_focus");
            reveal_strlit("Focus Sidebar");
            reveal_strlit("Move keyboard focus to the sidebar");
        },
        Command::ToggleFullscreen => {
            reveal_strlit("toggle_fullscreen");
            reveal_strlit("Toggle Fullscreen");
            reveal_strlit("Enter or leave fullscreen");
        },
        Command::ScrollToTop => {
            reveal_strlit("scroll_to_top");
            reveal_strlit("Scroll to Top");
            reveal_strlit("Jump to the top of the scrollback");
        },
        Command::ScrollToBottom => {
            reveal_strlit("scroll_to_bottom");
            reveal_strlit("Scroll to Bottom");
            reveal_strlit("Jump to the latest output");
        },
        Command::CopyMode => {
            reveal_strlit("copy_mode");
            reveal_strlit("Copy Mode");
            reveal_strlit("Enter tmux-style scrollback navigation and text selection");
        },
        Command::IncreaseFontSize => {
            reveal_strlit("increase_font_size");
            reveal_strlit("Increase Font Size");
            reveal_strlit("Make the terminal text larger");
        },
        Command::DecreaseFontSize => {
            reveal_strlit("decrease_font_size");
            reveal_strlit("Decrease Font Size");
            reveal_strlit("Make the terminal text smaller");
        },
        Command::ResetFontSize => {
            reveal_strlit("reset_font_size");
            reveal_strlit("Reset Font Size");
            reveal_strlit("Restore the configured font size");
        },
        Command::Find => {
            reveal_strlit("start_search");
            reveal_strlit("Find in Terminal");
            reveal_strlit("Search the terminal scrollback");
        },
        Command::KeyboardShortcuts => {
            reveal_strlit("show_keybinds");
            reveal_strlit("Keyboard Shortcuts");
            reveal_strlit("Browse the active keybindings");
        },
        Command::UseSystemAppearance => {
            reveal_strlit("change_appearance:system");
            reveal_strlit("Use System Appearance");
            reveal_strlit("Follow the operating system light/dark appearance");
        },
        Command::UseLightAppearance => {
            reveal_strlit("change_appearance:light");
            reveal_strlit("Use Light Appearance");
            reveal_strlit("Switch Bootty to the configured light appearance branch");
        },
        Command::UseDarkAppearance => {
            reveal_strlit("change_appearance:dark");
            reveal_strlit("Use Dark Appearance");
            reveal_strlit("Switch Bootty to the configured dark appearance branch");
        },
        Command::SwitchTheme => {
            reveal_strlit("switch_theme");
            reveal_strlit("Switch Theme");
            reveal_strlit("Pick a theme for the active light or dark appearance branch");
        },
        Command::OpenSettings => {
            reveal_strlit("open_settings");
            reveal_strlit("Settings");
            reveal_strlit("Open the settings surface");
        },
        Command::ReloadConfig => {
            reveal_strlit("reload_config");
            reveal_strlit("Reload Config");
            reveal_strlit("Re-read the config file from disk");
        },
        Command::Quit => {
            reveal_strlit("quit");
            reveal_strlit("Quit Bootty");
            reveal_strlit("Close the application");
        },
        Command::CommandPalette => {
            reveal_strlit("command_palette");
            reveal_strlit("Command Palette");
            reveal_strlit("Search and run any command");
        },
        Command::CloseWindow => {
            reveal_strlit("close_window");
            reveal_strlit("Close Window");
            reveal_strlit("Close the current window");
        },
        Command::Ignore => {
            reveal_strlit("ignore");
            reveal_strlit("Ignore");
            reveal_strlit("Do nothing — mask a default binding so the keys pass through");
        },
        Command::SelectTab => {
            reveal_strlit("select_tab");
            reveal_strlit("Select Tab");
            reveal_strlit("Jump to tab N (value 1–9)");
        },
        Command::MoveTab => {
            reveal_strlit("move_tab");
            reveal_strlit("Move Tab");
            reveal_strlit("Reorder the current tab by N");
        },
        Command::SelectPane => {
            reveal_strlit("select_pane");
            reveal_strlit("Select Pane");
            reveal_strlit("Focus the pane in a direction (left/right/up/down)");
        },
        Command::SelectSession => {
            reveal_strlit("select_session");
            reveal_strlit("Select Session");
            reveal_strlit("Jump to session N (value 1–9)");
        },
        Command::MoveSession => {
            reveal_strlit("move_session");
            reveal_strlit("Move Session");
            reveal_strlit("Reorder the current session by N");
        },
        Command::ScrollPageUp => {
            reveal_strlit("scroll_page_up");
            reveal_strlit("Scroll Page Up");
            reveal_strlit("Scroll up one page");
        },
        Command::ScrollPageDown => {
            reveal_strlit("scroll_page_down");
            reveal_strlit("Scroll Page Down");
            reveal_strlit("Scroll down one page");
        },
        Command::ScrollPageLines => {
            reveal_strlit("scroll_page_lines");
            reveal_strlit("Scroll Lines");
            reveal_strlit("Scroll by N lines (negative scrolls up)");
        },
        Command::SetFontSize => {
            reveal_strlit("set_font_size");
            reveal_strlit("Set Font Size");
            reveal_strlit("Set the font size to N points");
        },
        Command::Copy => {
            reveal_strlit("copy_to_clipboard");
            reveal_strlit("Copy");
            reveal_strlit("Copy the selection to the clipboard");
        },
        Command::Paste => {
            reveal_strlit("paste_from_clipboard");
            reveal_strlit("Paste");
            reveal_strlit("Paste from the clipboard");
        },
        Command::SendCsi => {
            reveal_strlit("csi");
            reveal_strlit("Send CSI");
            reveal_strlit("Write a CSI escape sequence to the terminal");
        },
        Command::SendEsc => {
            reveal_strlit("esc");
            reveal_strlit("Send ESC");
            reveal_strlit("Write an ESC sequence to the terminal");
        },
        Command::SendText => {
            reveal_strlit("text");
            reveal_strlit("Send Text");
            reveal_strlit("Write literal text to the terminal");
        },
    }
}

/// Every command has its own binding-action name: two commands with the same action name are
/// the same command.
pub proof fn lemma_action_names_distinct(a: Command, b: Command)
    requires
        action_of(a) == action_of(b),
    ensures
        a == b,
{
    lemma_command_strings(a);
    lemma_command_strings(b);
}

/// Every command has a non-empty title and a non-empty description.
pub proof fn lemma_titles_and_descriptions_present(c: Command)
    ensures
        title_of(c).len() > 0,
        description_of(c).len() > 0,
{
    lemma_command_strings(c);
}

/// Every command occurs in the catalog, at its own position.
pub proof fn lemma_catalog_lists_every_command(c: Command)
    ensures
        0 <= command_position(c) < all_commands().len(),
        all_commands()[command_position(c)] == c,
{
}

/// The palette dispatches a command's own action name, except for the font-size steps, which
/// bake in a step of one.
pub proof fn lemma_palette_action_is_action(c: Command)
    requires
        palette_action_of(c) is Some,
        c != Command::IncreaseFontSize,
        c != Command::DecreaseFontSize,
    ensures
        palette_action_of(c) == Some(action_of(c)),
{
    match c {
        Command::MoveTabLeft => {
            reveal_strlit("move_tab:-1");
        },
        Command::MoveTabRight => {
            reveal_strlit("move_tab:1");
        },
        _ => {},
    }
}

/// The font-size steps dispatch their own action with a step of one.
pub proof fn lemma_font_step_palette_actions()
    ensures
        palette_action_of(Command::IncreaseFontSize) == Some(
            action_of(Command::IncreaseFontSize) + ":1"@,
        ),
        palette_action_of(Command::DecreaseFontSize) == Some(
            action_of(Command::DecreaseFontSize) + ":1"@,
        ),
{
    reveal_strlit("increase_font_size:1");
    reveal_strlit("decrease_font_size:1");
    reveal_strlit("increase_font_size");
    reveal_strlit("decrease_font_size");
    reveal_strlit(":1");
    assert(palette_action_of(Command::IncreaseFontSize)->0 =~= action_of(Command::IncreaseFontSize)
        + ":1"@);
    assert(palette_action_of(Command::DecreaseFontSize)->0 =~= action_of(Command::DecreaseFontSize)
        + ":1"@);
}

proof fn lemma_palette_command_at(i: int)
    requires
        0 <= i < 57,
    ensures
        palette_action_of(all_commands()[i]) is Some <==> i < 40,
{
        if i == 0 {
        } else if i == 1 {
        } else if i == 2 {
        } else if i == 3 {
        } else if i == 4 {
        } else if i == 5 {
        } else if i == 6 {
        } else if i == 7 {
        } else if i == 8 {
        } else if i == 9 {
        } else if i == 10 {
        } else if i == 11 {
        } else if i == 12 {
        } else if i == 13 {
        } else if i == 14 {
        } else if i == 15 {
        } else if i == 16 {
        } else if i == 17 {
        } else if i == 18 {
        } else if i == 19 {
        } else if i == 20 {
        } else if i == 21 {
        } else if i == 22 {
        } else if i == 23 {
        } else if i == 24 {
        } else if i == 25 {
        } else if i == 26 {
        } else if i == 27 {
        } else if i == 28 {
        } else if i == 29 {
        } else if i == 30 {
        } else if i == 31 {
        } else if i == 32 {
        } else if i == 33 {
        } else if i == 34 {
        } else if i == 35 {
        } else if i == 36 {
        } else if i == 37 {
        } else if i == 38 {
        } else if i == 39 {
        } else if i == 40 {
        } else if i == 41 {
        } else if i == 42 {
        } else if i == 43 {
        } else if i == 44 {
        } else if i == 45 {
        } else if i == 46 {
        } else if i == 47 {
        } else if i == 48 {
        } else if i == 49 {
        } else if i == 50 {
        } else if i == 51 {
        } else if i == 52 {
        } else if i == 53 {
        } else if i == 54 {
        } else if i == 55 {
        } else if i == 56 {
        }
}

/// The palette lists its commands first: in display order, the first forty commands are the
/// ones the palette dispatches and every command after them is editor-only.
pub proof fn lemma_palette_commands_come_first()
    ensures
        all_commands().len() == 57,
        forall|i: int|
            0 <= i < 57 ==> (palette_action_of(#[trigger] all_commands()[i]) is Some <==> i < 40),
        forall|i: int, j: int|
            0 <= i < j < 57 && palette_action_of(#[trigger] all_commands()[i]) is None
                ==> palette_action_of(#[trigger] all_commands()[j]) is None,
{
    assert forall|i: int| 0 <= i < 57 implies (palette_action_of(#[trigger] all_commands()[i]) is Some
        <==> i < 40) by {
        lemma_palette_command_at(i);
    }
}

impl Command {
    /// Every command in display order.
    pub fn all() -> (out: Vec<Command>)
        ensures
            out@ == all_commands(),
    {
        let out = vec![
            Command::NewSession,
            Command::SwitchSession,
            Command::RenameSession,
            Command::DitchSession,
            Command::NextSession,
            Command::PreviousSession,
            Command::LastSession,
            Command::NewTab,
            Command::NextTab,
            Command::PreviousTab,
            Command::LastTab,
            Command::MoveTabLeft,
            Command::MoveTabRight,
            Command::RenameTab,
            Command::SplitRight,
            Command::SplitDown,
            Command::NextPane,
            Command::PreviousPane,
            Command::TogglePaneZoom,
            Command::KillPane,
            Command::ClosePane,
            Command::NewWindow,
            Command::ToggleSidebar,
            Command::FocusSidebar,
            Command::ToggleFullscreen,
            Command::ScrollToTop,
            Command::ScrollToBottom,
            Command::CopyMode,
            Command::IncreaseFontSize,
            Command::DecreaseFontSize,
            Command::ResetFontSize,
            Command::Find,
            Command::KeyboardShortcuts,
            Command::UseSystemAppearance,
            Command::UseLightAppearance,
            Command::UseDarkAppearance,
            Command::SwitchTheme,
            Command::OpenSettings,
            Command::ReloadConfig,
            Command::Quit,
            Command::CommandPalette,
            Command::CloseWindow,
            Command::Ignore,
            Command::SelectTab,
            Command::MoveTab,
            Command::SelectPane,
            Command::SelectSession,
            Command::MoveSession,
            Command::ScrollPageUp,
            Command::ScrollPageDown,
            Command::ScrollPageLines,
            Command::SetFontSize,
            Command::Copy,
            Command::Paste,
            Command::SendCsi,
            Command::SendEsc,
            Command::SendText,
        ];
        assert(out@ =~= all_commands());
        out
    }

    /// Human title (e.g. "Rename Session").
    pub fn title(self) -> (s: &'static str)
        ensures
            s@ == title_of(self),
    {
        match self {
            Command::NewSession => "New Session",
            Command::SwitchSession => "Switch Session",
            Command::RenameSession => "Rename Session",
            Command::DitchSession => "Ditch Session",
            Command::NextSession => "Next Session",
            Command::PreviousSession => "Previous Session",
            Command::LastSession => "Last Session",
            Command::NewTab => "New Tab",
            Command::NextTab => "Next Tab",
            Command::PreviousTab => "Previous Tab",
            Command::LastTab => "Last Tab",
            Command::MoveTabLeft => "Move Tab Left",
            Command::MoveTabRight => "Move Tab Right",
            Command::RenameTab => "Rename Tab",
            Command::SplitRight => "Split Right",
            Command::SplitDown => "Split Down",
            Command::NextPane => "Next Pane",
            Command::PreviousPane => "Previous Pane",
            Command::TogglePaneZoom => "Toggle Pane Zoom",
            Command::KillPane => "Kill Pane",
            Command::ClosePane => "Close Pane",
            Command::NewWindow => "New Window",
            Command::ToggleSidebar => "Toggle Sidebar",
            Command::FocusSidebar => "Focus Sidebar",
            Command::ToggleFullscreen => "Toggle Fullscreen",
            Command::ScrollToTop => "Scroll to Top",
            Command::ScrollToBottom => "Scroll to Bottom",
            Command::CopyMode => "Copy Mode",
            Command::IncreaseFontSize => "Increase Font Size",
            Command::DecreaseFontSize => "Decrease Font Size",
            Command::ResetFontSize => "Reset Font Size",
            Command::Find => "Find in Terminal",
            Command::KeyboardShortcuts => "Keyboard Shortcuts",
            Command::UseSystemAppearance => "Use System Appearance",
            Command::UseLightAppearance => "Use Light Appearance",
            Command::UseDarkAppearance => "Use Dark Appearance",
            Command::SwitchTheme => "Switch Theme",
            Command::OpenSettings => "Settings",
            Command::ReloadConfig => "Reload Config",
            Command::Quit => "Quit Bootty",
            Command::CommandPalette => "Command Palette",
            Command::CloseWindow => "Close Window",
            Command::Ignore => "Ignore",
            Command::SelectTab => "Select Tab",
            Command::MoveTab => "Move Tab",
            Command::SelectPane => "Select Pane",
            Command::SelectSession => "Select Session",
            Command::MoveSession => "Move Session",
            Command::ScrollPageUp => "Scroll Page Up",
            Command::ScrollPageDown => "Scroll Page Down",
            Command::ScrollPageLines => "Scroll Lines",
            Command::SetFontSize => "Set Font Size",
            Command::Copy => "Copy",
            Command::Paste => "Paste",
            Command::SendCsi => "Send CSI",
            Command::SendEsc => "Send ESC",
            Command::SendText => "Send Text",
        }
    }

    /// One-line description for the palette and the editor.
    pub fn description(self) -> (s: &'static str)
        ensures
            s@ == description_of(self),
    {
        match self {
            Command::NewSession => "Pick a directory or worktree and start a session",
            Command::SwitchSession => "Fuzzy-find and jump to an open session",
            Command::RenameSession => "Rename the current session",
            Command::DitchSession => "Close the session and optionally remove its worktree",
            Command::NextSession => "Activate the next session",
            Command::PreviousSession => "Activate the previous session",
            Command::LastSession => "Toggle back to the most recent session",
            Command::NewTab => "Open a new tab in the current session",
            Command::NextTab => "Activate the next tab",
            Command::PreviousTab => "Activate the previous tab",
            Command::LastTab => "Toggle back to the most recently used tab",
            Command::MoveTabLeft => "Reorder the current tab one position left",
            Command::MoveTabRight => "Reorder the current tab one position right",
            Command::RenameTab => "Rename the current tab",
            Command::SplitRight => "Split the current pane horizontally",
            Command::SplitDown => "Split the current pane vertically",
            Command::NextPane => "Move focus to the next pane",
            Command::PreviousPane => "Move focus to the previous pane",
            Command::TogglePaneZoom => "Zoom the focused pane to fill the window, or restore it",
            Command::KillPane => "Close the focused pane",
            Command::ClosePane => "Close the active pane, cascading to the tab",
            Command::NewWindow => "Open a new top-level window",
            Command::ToggleSidebar => "Show or hide the session sidebar",
            Command::FocusSidebar => "Move keyboard focus to the sidebar",
            Command::ToggleFullscreen => "Enter or leave fullscreen",
            Command::ScrollToTop => "Jump to the top of the scrollback",
            Command::ScrollToBottom => "Jump to the latest output",
            Command::CopyMode => "Enter tmux-style scrollback navigation and text selection",
            Command::IncreaseFontSize => "Make the terminal text larger",
            Command::DecreaseFontSize => "Make the terminal text smaller",
            Command::ResetFontSize => "Restore the configured font size",
            Command::Find => "Search the terminal scrollback",
            Command::KeyboardShortcuts => "Browse the active keybindings",
            Command::UseSystemAppearance => "Follow the operating system light/dark appearance",
            Command::UseLightAppearance => "Switch Bootty to the configured light appearance branch",
            Command::UseDarkAppearance => "Switch Bootty to the configured dark appearance branch",
            Command::SwitchTheme => "Pick a theme for the active light or dark appearance branch",
            Command::OpenSettings => "Open the settings surface",
            Command::ReloadConfig => "Re-read the config file from disk",
            Command::Quit => "Close the application",
            Command::CommandPalette => "Search and run any command",
            Command::CloseWindow => "Close the current window",
            Command::Ignore => "Do nothing — mask a default binding so the keys pass through",
            Command::SelectTab => "Jump to tab N (value 1–9)",
            Command::MoveTab => "Reorder the current tab by N",
            Command::SelectPane => "Focus the pane in a direction (left/right/up/down)",
            Command::SelectSession => "Jump to session N (value 1–9)",
            Command::MoveSession => "Reorder the current session by N",
            Command::ScrollPageUp => "Scroll up one page",
            Command::ScrollPageDown => "Scroll down one page",
            Command::ScrollPageLines => "Scroll by N lines (negative scrolls up)",
            Command::SetFontSize => "Set the font size to N points",
            Command::Copy => "Copy the selection to the clipboard",
            Command::Paste => "Paste from the clipboard",
            Command::SendCsi => "Write a CSI escape sequence to the terminal",
            Command::SendEsc => "Write an ESC sequence to the terminal",
            Command::SendText => "Write literal text to the terminal",
        }
    }

    /// The binding-action name used by the keybinding editor and by dispatch.
    pub fn action(self) -> (s: &'static str)
        ensures
            s@ == action_of(self),
    {
        match self {
            Command::NewSession => "new_mux_session",
            Command::SwitchSession => "session_picker",
            Command::RenameSession => "rename_session",
            Command::DitchSession => "ditch_session",
            Command::NextSession => "next_session",
            Command::PreviousSession => "previous_session",
            Command::LastSession => "last_session",
            Command::NewTab => "new_tab",
            Command::NextTab => "next_tab",
            Command::PreviousTab => "previous_tab",
            Command::LastTab => "last_tab",
            Command::MoveTabLeft => "move_tab:-1",
            Command::MoveTabRight => "move_tab:1",
            Command::RenameTab => "rename_tab",
            Command::SplitRight => "split_right",
            Command::SplitDown => "split_down",
            Command::NextPane => "next_pane",
            Command::PreviousPane => "previous_pane",
            Command::TogglePaneZoom => "toggle_pane_zoom",
            Command::KillPane => "kill_pane",
            Command::ClosePane => "close_surface",
            Command::NewWindow => "new_window",
            Command::ToggleSidebar => "toggle_sidebar_visibility",
            Command::FocusSidebar => "toggle_sidebar_focus",
            Command::ToggleFullscreen => "toggle_fullscreen",
            Command::ScrollToTop => "scroll_to_top",
            Command::ScrollToBottom => "scroll_to_bottom",
            Command::CopyMode => "copy_mode",
            Command::IncreaseFontSize => "increase_font_size",
            Command::DecreaseFontSize => "decrease_font_size",
            Command::ResetFontSize => "reset_font_size",
            Command::Find => "start_search",
            Command::KeyboardShortcuts => "show_keybinds",
            Command::UseSystemAppearance => "change_appearance:system",
            Command::UseLightAppearance => "change_appearance:light",
            Command::UseDarkAppearance => "change_appearance:dark",
            Command::SwitchTheme => "switch_theme",
            Command::OpenSettings => "open_settings",
            Command::ReloadConfig => "reload_config",
            Command::Quit => "quit",
            Command::CommandPalette => "command_palette",
            Command::CloseWindow => "close_window",
            Command::Ignore => "ignore",
            Command::SelectTab => "select_tab",
            Command::MoveTab => "move_tab",
            Command::SelectPane => "select_pane",
            Command::SelectSession => "select_session",
            Command::MoveSession => "move_session",
            Command::ScrollPageUp => "scroll_page_up",
            Command::ScrollPageDown => "scroll_page_down",
            Command::ScrollPageLines => "scroll_page_lines",
            Command::SetFontSize => "set_font_size",
            Command::Copy => "copy_to_clipboard",
            Command::Paste => "paste_from_clipboard",
            Command::SendCsi => "csi",
            Command::SendEsc => "esc",
            Command::SendText => "text",
        }
    }

    /// Icon slug shown in the palette.
    pub fn icon(self) -> (s: &'static str)
        ensures
            s@ == icon_of(self),
    {
        match self {
            Command::NewSession => "square-plus",
            Command::SwitchSession => "terminal",
            Command::RenameSession => "pencil",
            Command::DitchSession => "trash-2",
            Command::NextSession => "chevron-down",
            Command::PreviousSession => "chevron-up",
            Command::LastSession => "history",
            Command::NewTab => "plus",
            Command::NextTab => "chevron-right",
            Command::PreviousTab => "chevron-left",
            Command::LastTab => "arrow-right-to-line",
            Command::MoveTabLeft => "move-horizontal",
            Command::MoveTabRight => "move-horizontal",
            Command::RenameTab => "pencil",
            Command::SplitRight => "columns-2",
            Command::SplitDown => "rows-2",
            Command::NextPane => "layout-grid",
            Command::PreviousPane => "layout-grid",
            Command::TogglePaneZoom => "maximize-2",
            Command::KillPane => "x",
            Command::ClosePane => "square-x",
            Command::NewWindow => "app-window",
            Command::ToggleSidebar => "panel-left",
            Command::FocusSidebar => "panel-left-open",
            Command::ToggleFullscreen => "maximize",
            Command::ScrollToTop => "arrow-up-to-line",
            Command::ScrollToBottom => "arrow-down-to-line",
            Command::CopyMode => "copy",
            Command::IncreaseFontSize => "zoom-in",
            Command::DecreaseFontSize => "zoom-out",
            Command::ResetFontSize => "type",
            Command::Find => "search",
            Command::KeyboardShortcuts => "keyboard",
            Command::UseSystemAppearance => "sun-moon",
            Command::UseLightAppearance => "sun-moon",
            Command::UseDarkAppearance => "sun-moon",
            Command::SwitchTheme => "palette",
            Command::OpenSettings => "settings",
            Command::ReloadConfig => "refresh-cw",
            Command::Quit => "power",
            Command::CommandPalette => "search",
            Command::CloseWindow => "x",
            Command::Ignore => "ban",
            Command::SelectTab => "hash",
            Command::MoveTab => "move-horizontal",
            Command::SelectPane => "layout",
            Command::SelectSession => "hash",
            Command::MoveSession => "move-vertical",
            Command::ScrollPageUp => "chevrons-up",
            Command::ScrollPageDown => "chevrons-down",
            Command::ScrollPageLines => "list",
            Command::SetFontSize => "type",
            Command::Copy => "copy",
            Command::Paste => "clipboard",
            Command::SendCsi => "terminal",
            Command::SendEsc => "terminal",
            Command::SendText => "terminal",
        }
    }

    /// The exact action string the palette dispatches, or `None` for editor-only commands.
    pub fn palette_action(self) -> (r: Option<&'static str>)
        ensures
            match r {
                Some(s) => palette_action_of(self) == Some(s@),
                None => palette_action_of(self) is None,
            },
    {
        match self {
            Command::NewSession => Some(self.action()),
            Command::SwitchSession => Some(self.action()),
            Command::RenameSession => Some(self.action()),
            Command::DitchSession => Some(self.action()),
            Command::NextSession => Some(self.action()),
            Command::PreviousSession => Some(self.action()),
            Command::LastSession => Some(self.action()),
            Command::NewTab => Some(self.action()),
            Command::NextTab => Some(self.action()),
            Command::PreviousTab => Some(self.action()),
            Command::LastTab => Some(self.action()),
            Command::MoveTabLeft => Some("move_tab:-1"),
            Command::MoveTabRight => Some("move_tab:1"),
            Command::RenameTab => Some(self.action()),
            Command::SplitRight => Some(self.action()),
            Command::SplitDown => Some(self.action()),
            Command::NextPane => Some(self.action()),
            Command::PreviousPane => Some(self.action()),
            Command::TogglePaneZoom => Some(self.action()),
            Command::KillPane => Some(self.action()),
            Command::ClosePane => Some(self.action()),
            Command::NewWindow => Some(self.action()),
            Command::ToggleSidebar => Some(self.action()),
            Command::FocusSidebar => Some(self.action()),
            Command::ToggleFullscreen => Some(self.action()),
            Command::ScrollToTop => Some(self.action()),
            Command::ScrollToBottom => Some(self.action()),
            Command::CopyMode => Some(self.action()),
            Command::IncreaseFontSize => Some("increase_font_size:1"),
            Command::DecreaseFontSize => Some("decrease_font_size:1"),
            Command::ResetFontSize => Some(self.action()),
            Command::Find => Some(self.action()),
            Command::KeyboardShortcuts => Some(self.action()),
            Command::UseSystemAppearance => Some(self.action()),
            Command::UseLightAppearance => Some(self.action()),
            Command::UseDarkAppearance => Some(self.action()),
            Command::SwitchTheme => Some(self.action()),
            Command::OpenSettings => Some(self.action()),
            Command::ReloadConfig => Some(self.action()),
            Command::Quit => Some(self.action()),
            Command::CommandPalette => None,
            Command::CloseWindow => None,
            Command::Ignore => None,
            Command::SelectTab => None,
            Command::MoveTab => None,
            Command::SelectPane => None,
            Command::SelectSession => None,
            Command::MoveSession => None,
            Command::ScrollPageUp => None,
            Command::ScrollPageDown => None,
            Command::ScrollPageLines => None,
            Command::SetFontSize => None,
            Command::Copy => None,
            Command::Paste => None,
            Command::SendCsi => None,
            Command::SendEsc => None,
            Command::SendText => None,
        }
    }

    /// The command whose action name is `name`, for resolving a stored binding row back to its
    /// title and description.
    pub fn from_action(name: &str) -> (r: Option<Command>)
        ensures
            match r {
                Some(c) => action_of(c) == name@,
                None => forall|c: Command| action_of(c) != name@,
            },
    {
        let all = Command::all();
        let mut i: usize = 0;
        while i < all.len()
            invariant
                all@ == all_commands(),
                i <= all@.len(),
                forall|j: int| 0 <= j < i ==> action_of(#[trigger] all@[j]) != name@,
            decreases all@.len() - i,
        {
            let c = all[i];
            if str_eq(c.action(), name) {
                return Some(c);
            }
            i = i + 1;
        }
        assert forall|c: Command| action_of(c) != name@ by {
            lemma_catalog_lists_every_command(c);
            assert(action_of(all@[command_position(c)]) != name@);
        }
        None
    }
}

} // verus!
