//! The window and sidebar toggles that key bindings run: what each toggle asks of the window
//! and what it leaves as the new state.
use vstd::prelude::*;
use crate::config::{WindowConfig, WindowFullscreen, toggled_non_native_fullscreen};

verus! {

/// Where keyboard input goes.
#[derive(Clone, Copy, Debug, PartialEq, Eq, Structural)]
pub enum InputFocus {
    Terminal,
    Sidebar,
    Picker,
}

/// The window's state as the toggle sees it.
#[derive(Clone, Copy, Debug, PartialEq, Eq, Structural)]
pub struct ViewportSnapshot {
    pub fullscreen: bool,
    pub maximized: bool,
}

/// What a fullscreen toggle asks of the window, and the non-native state it leaves.
#[derive(Clone, Copy, Debug, PartialEq, Eq, Structural)]
pub struct FullscreenToggle {
    /// Ask the window to enter (true) or leave (false) the platform's fullscreen.
    pub set_fullscreen: bool,
    /// Ask the window to maximize or restore, when the platform does not draw the frame itself.
    pub set_maximized: Option<bool>,
    /// Whether non-native fullscreen is on after the toggle.
    pub non_native_active: bool,
}

/// A fullscreen toggle: the platform's fullscreen flips the window's fullscreen state; the
/// non-native kind leaves platform fullscreen, flips its own state, and maximizes or restores
/// the window unless the platform draws that frame itself.
pub open spec fn fullscreen_toggle(
    window: WindowConfig,
    platform_handles_frame: bool,
    non_native_active: bool,
    viewport: ViewportSnapshot,
) -> FullscreenToggle {
    if window.fullscreen != WindowFullscreen::NonNative {
        FullscreenToggle {
            set_fullscreen: !viewport.fullscreen,
            set_maximized: None,
            non_native_active,
        }
    } else {
        let next = toggled_non_native_fullscreen(
            platform_handles_frame,
            non_native_active,
            viewport.maximized,
        );
        FullscreenToggle {
            set_fullscreen: false,
            set_maximized: if platform_handles_frame {
                None
            } else {
                Some(next)
            },
            non_native_active: next,
        }
    }
}

pub fn toggle_fullscreen(
    window: &WindowConfig,
    platform_handles_frame: bool,
    non_native_active: bool,
    viewport: ViewportSnapshot,
) -> (r: FullscreenToggle)
    ensures
        r == fullscreen_toggle(*window, platform_handles_frame, non_native_active, viewport),
{
    if crate::config::should_toggle_native_fullscreen(window) {
        return FullscreenToggle {
            set_fullscreen: !viewport.fullscreen,
            set_maximized: None,
            non_native_active,
        };
    }
    let next = crate::config::next_non_native_fullscreen_state(
        platform_handles_frame,
        non_native_active,
        viewport.maximized,
    );
    FullscreenToggle {
        set_fullscreen: false,
        set_maximized: if platform_handles_frame {
            None
        } else {
            Some(next)
        },
        non_native_active: next,
    }
}

/// Toggling non-native fullscreen twice, the window reporting between the toggles what the
/// first one asked of it, leaves the window as it was.
pub proof fn lemma_fullscreen_toggle_twice(
    window: WindowConfig,
    platform_handles_frame: bool,
    viewport: ViewportSnapshot,
)
    requires
        window.fullscreen == WindowFullscreen::NonNative,
        !viewport.fullscreen,
    ensures
        ({
            let first = fullscreen_toggle(window, platform_handles_frame, viewport.maximized, viewport);
            let after = ViewportSnapshot {
                fullscreen: first.set_fullscreen,
                maximized: match first.set_maximized {
                    Some(m) => m,
                    None => viewport.maximized,
                },
            };
            let second = fullscreen_toggle(window, platform_handles_frame, first.non_native_active, after);
            second.non_native_active == viewport.maximized && (second.set_maximized matches Some(m)
                ==> m == viewport.maximized)
        }),
{
}

/// The sidebar's visibility and where input goes.
#[derive(Clone, Copy, Debug, PartialEq, Eq, Structural)]
pub struct SidebarState {
    pub focus: InputFocus,
    pub sidebar_visible: bool,
}

/// Moving focus to or from the sidebar: from the sidebar back to the terminal; from anywhere
/// else to the sidebar, showing it.
pub open spec fn sidebar_focus_toggled(s: SidebarState) -> SidebarState {
    if s.focus == InputFocus::Sidebar {
        SidebarState { focus: InputFocus::Terminal, sidebar_visible: s.sidebar_visible }
    } else {
        SidebarState { focus: InputFocus::Sidebar, sidebar_visible: true }
    }
}

pub fn toggle_sidebar_focus(s: SidebarState) -> (r: SidebarState)
    ensures
        r == sidebar_focus_toggled(s),
{
    if s.focus == InputFocus::Sidebar {
        SidebarState { focus: InputFocus::Terminal, sidebar_visible: s.sidebar_visible }
    } else {
        SidebarState { focus: InputFocus::Sidebar, sidebar_visible: true }
    }
}

/// Showing or hiding the sidebar; hiding it sends input back to the terminal.
pub open spec fn sidebar_visibility_toggled(s: SidebarState) -> SidebarState {
    if s.sidebar_visible {
        SidebarState { focus: InputFocus::Terminal, sidebar_visible: false }
    } else {
        SidebarState { focus: s.focus, sidebar_visible: true }
    }
}

pub fn toggle_sidebar_visibility(s: SidebarState) -> (r: SidebarState)
    ensures
        r == sidebar_visibility_toggled(s),
{
    let visible = !s.sidebar_visible;
    SidebarState {
        focus: if visible {
            s.focus
        } else {
            InputFocus::Terminal
        },
        sidebar_visible: visible,
    }
}

/// Input never stays on a hidden sidebar: after either toggle, focus on the sidebar means the
/// sidebar is shown. Toggling visibility twice restores it, and toggling focus from the
/// terminal twice returns to the terminal with the sidebar shown.
pub proof fn lemma_sidebar_toggles(s: SidebarState)
    ensures
        sidebar_focus_toggled(s).focus == InputFocus::Sidebar ==> sidebar_focus_toggled(s).sidebar_visible,
        sidebar_visibility_toggled(s).focus == InputFocus::Sidebar ==> sidebar_visibility_toggled(
            s,
        ).sidebar_visible,
        sidebar_visibility_toggled(sidebar_visibility_toggled(s)).sidebar_visible == s.sidebar_visible,
        s.focus == InputFocus::Terminal ==> sidebar_focus_toggled(sidebar_focus_toggled(s)) == (
        SidebarState { focus: InputFocus::Terminal, sidebar_visible: true }),
{
}

} // verus!
