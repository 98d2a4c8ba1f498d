//! The parts of the product configuration that the window shell decides on: the multiplexer
//! backend, fullscreen style, chrome visibility and status-bar segments, and the labels and
//! keys derived from a binding's identity.
use vstd::prelude::*;

use crate::text::{push_signed_decimal, push_str, signed_decimal, str_eq};

verus! {

/// The session multiplexer a binding runs on.
#[derive(Clone, Copy, Debug, PartialEq, Eq, Structural)]
pub enum MultiplexerBackendConfig {
    Native,
    Rmux,
    Tmux,
    Zellij,
}

/// How the window goes fullscreen.
#[derive(Clone, Copy, Debug, PartialEq, Eq, Structural)]
pub enum WindowFullscreen {
    /// The window does not start fullscreen; the toggle uses the platform's fullscreen.
    Off,
    /// The window starts in the platform's own fullscreen.
    Native,
    /// Fullscreen is a borderless window covering the screen, without a separate space.
    NonNative,
}

#[derive(Clone, Copy, Debug, PartialEq, Eq, Structural)]
pub struct WindowConfig {
    pub fullscreen: WindowFullscreen,
}

impl WindowConfig {
    pub fn non_native_fullscreen_enabled(&self) -> (r: bool)
        ensures
            r == (self.fullscreen == WindowFullscreen::NonNative),
    {
        self.fullscreen == WindowFullscreen::NonNative
    }

    pub fn native_fullscreen_enabled(&self) -> (r: bool)
        ensures
            r == (self.fullscreen == WindowFullscreen::Native),
    {
        self.fullscreen == WindowFullscreen::Native
    }
}

/// Which pieces of window chrome are shown.
#[derive(Clone, Copy, Debug, PartialEq, Eq, Structural)]
pub struct ChromeConfig {
    pub sidebar: bool,
    pub status_bar: bool,
}

/// The configuration the window shell reads.
#[derive(Clone, Copy, Debug, PartialEq, Eq, Structural)]
pub struct BoottyConfig {
    pub window: WindowConfig,
    pub chrome: ChromeConfig,
    pub backend: MultiplexerBackendConfig,
}

impl Default for BoottyConfig {
    fn default() -> (r: Self)
        ensures
            r.window.fullscreen == WindowFullscreen::Off,
            r.chrome.sidebar,
            r.chrome.status_bar,
            r.backend == MultiplexerBackendConfig::Native,
    {
        BoottyConfig {
            window: WindowConfig { fullscreen: WindowFullscreen::Off },
            chrome: ChromeConfig { sidebar: true, status_bar: true },
            backend: MultiplexerBackendConfig::Native,
        }
    }
}

/// Whether the fullscreen toggle uses the platform's fullscreen (rather than the non-native
/// borderless one).
pub fn should_toggle_native_fullscreen(window: &WindowConfig) -> (r: bool)
    ensures
        r == (window.fullscreen != WindowFullscreen::NonNative),
{
    !window.non_native_fullscreen_enabled()
}

/// The non-native fullscreen state after a toggle: when the platform handles the frame, the
/// opposite of the tracked state; otherwise the opposite of the window's maximized state.
pub open spec fn toggled_non_native_fullscreen(
    platform_handles_frame: bool,
    tracked_active: bool,
    viewport_maximized: bool,
) -> bool {
    if platform_handles_frame {
        !tracked_active
    } else {
        !viewport_maximized
    }
}

pub fn next_non_native_fullscreen_state(
    macos_handles_frame: bool,
    tracked_active: bool,
    viewport_maximized: bool,
) -> (r: bool)
    ensures
        r == toggled_non_native_fullscreen(macos_handles_frame, tracked_active, viewport_maximized),
{
    if macos_handles_frame {
        !tracked_active
    } else {
        !viewport_maximized
    }
}

/// Toggling non-native fullscreen twice, with the state each toggle produced, comes back to
/// where it started.
pub proof fn lemma_non_native_fullscreen_toggle_involutive(
    platform_handles_frame: bool,
    active: bool,
)
    ensures
        toggled_non_native_fullscreen(
            platform_handles_frame,
            toggled_non_native_fullscreen(platform_handles_frame, active, active),
            toggled_non_native_fullscreen(platform_handles_frame, active, active),
        ) == active,
{
}

/// One segment of the status bar, identified by the module that fills it.
pub struct StatusSegment {
    pub module: String,
}

/// The session segment repeats what the sidebar shows, so it hides while the sidebar is
/// visible; every other segment always shows.
pub open spec fn segment_visible(module: Seq<char>, sidebar_visible: bool) -> bool {
    !(sidebar_visible && module == "session"@)
}

pub fn status_segment_visible(segment: &StatusSegment, sidebar_visible: bool) -> (r: bool)
    ensures
        r == segment_visible(segment.module@, sidebar_visible),
{
    !(sidebar_visible && str_eq(segment.module.as_str(), "session"))
}

/// Native and rmux sessions are laid out and rendered by Bootty itself.
pub open spec fn uses_native_layout(backend: MultiplexerBackendConfig) -> bool {
    backend == MultiplexerBackendConfig::Native || backend == MultiplexerBackendConfig::Rmux
}

pub fn backend_uses_native_layout_renderer(backend: MultiplexerBackendConfig) -> (r: bool)
    ensures
        r == uses_native_layout(backend),
{
    match backend {
        MultiplexerBackendConfig::Native | MultiplexerBackendConfig::Rmux => true,
        _ => false,
    }
}

/// The UI-chrome fonts are only loaded when some chrome that uses them is visible.
pub fn uses_custom_egui_fonts(config: &BoottyConfig) -> (r: bool)
    ensures
        r == (config.chrome.sidebar || config.chrome.status_bar),
{
    config.chrome.sidebar || config.chrome.status_bar
}

/// Whether a binding re-creates the sessions it persisted, waits, or leaves them.
#[derive(Clone, Copy, Debug, PartialEq, Eq, Structural)]
pub enum PersistedSessionRestoreDecision {
    Wait,
    Skip,
    Restore,
}

/// Native sessions live in this process and are always re-created; an rmux daemon is asked
/// first, and its persisted sessions are re-created only when a completed refresh found it
/// empty; tmux and zellij servers keep their own sessions.
pub open spec fn restore_decision(
    backend: MultiplexerBackendConfig,
    refresh_completed: bool,
    daemon_has_sessions: bool,
) -> PersistedSessionRestoreDecision {
    match backend {
        MultiplexerBackendConfig::Native => PersistedSessionRestoreDecision::Restore,
        MultiplexerBackendConfig::Rmux => if !refresh_completed {
            PersistedSessionRestoreDecision::Wait
        } else if daemon_has_sessions {
            PersistedSessionRestoreDecision::Skip
        } else {
            PersistedSessionRestoreDecision::Restore
        },
        _ => PersistedSessionRestoreDecision::Skip,
    }
}

pub fn persisted_session_restore_decision(
    backend: MultiplexerBackendConfig,
    refresh_completed: bool,
    daemon_has_sessions: bool,
) -> (r: PersistedSessionRestoreDecision)
    ensures
        r == restore_decision(backend, refresh_completed, daemon_has_sessions),
{
    match backend {
        MultiplexerBackendConfig::Native => PersistedSessionRestoreDecision::Restore,
        MultiplexerBackendConfig::Rmux if !refresh_completed => {
            PersistedSessionRestoreDecision::Wait
        },
        MultiplexerBackendConfig::Rmux if daemon_has_sessions => {
            PersistedSessionRestoreDecision::Skip
        },
        MultiplexerBackendConfig::Rmux => PersistedSessionRestoreDecision::Restore,
        MultiplexerBackendConfig::Tmux | MultiplexerBackendConfig::Zellij => {
            PersistedSessionRestoreDecision::Skip
        },
    }
}

/// The name a backend goes by in labels and keys.
pub open spec fn backend_name(backend: MultiplexerBackendConfig) -> Seq<char> {
    match backend {
        MultiplexerBackendConfig::Rmux => "Rmux"@,
        MultiplexerBackendConfig::Native => "Native"@,
        MultiplexerBackendConfig::Tmux => "Tmux"@,
        MultiplexerBackendConfig::Zellij => "Zellij"@,
    }
}

pub fn backend_label(backend: MultiplexerBackendConfig) -> (r: &'static str)
    ensures
        r@ == backend_name(backend),
{
    match backend {
        MultiplexerBackendConfig::Rmux => "Rmux",
        MultiplexerBackendConfig::Native => "Native",
        MultiplexerBackendConfig::Tmux => "Tmux",
        MultiplexerBackendConfig::Zellij => "Zellij",
    }
}

/// A binding's default label: its backend and its persisted id, as `Rmux / Binding 3`.
pub fn binding_label(binding_id: i64, backend: MultiplexerBackendConfig) -> (r: String)
    ensures
        r@ == backend_name(backend) + " / Binding "@ + signed_decimal(binding_id as int),
{
    let mut out = String::new();
    push_str(&mut out, backend_label(backend));
    push_str(&mut out, " / Binding ");
    push_signed_decimal(&mut out, binding_id);
    out
}

/// The identity of the terminal a binding shows: which space and binding, which backend, which
/// session and pane. A change of key is a change of terminal.
pub fn scoped_terminal_transition_key(
    space_id: i64,
    binding_id: i64,
    backend: MultiplexerBackendConfig,
    session_id: &str,
    pane_id: Option<&str>,
) -> (r: String)
    ensures
        r@ == signed_decimal(space_id as int) + ":"@ + signed_decimal(binding_id as int) + ":"@
            + backend_name(backend) + ":"@ + session_id@ + ":"@ + match pane_id {
            Some(p) => p@,
            None => Seq::empty(),
        },
{
    let mut out = String::new();
    push_signed_decimal(&mut out, space_id);
    push_str(&mut out, ":");
    push_signed_decimal(&mut out, binding_id);
    push_str(&mut out, ":");
    push_str(&mut out, backend_label(backend));
    push_str(&mut out, ":");
    push_str(&mut out, session_id);
    push_str(&mut out, ":");
    match pane_id {
        Some(p) => push_str(&mut out, p),
        None => {},
    }
    out
}

/// The key a pane's renderer is cached under: the same pane id in two sessions or windows gets
/// two keys.
pub fn pane_widget_key(
    space_id: i64,
    binding_id: i64,
    backend: MultiplexerBackendConfig,
    session_id: &str,
    window_id: &str,
    pane_id: &str,
) -> (r: String)
    ensures
        r@ == signed_decimal(space_id as int) + ":"@ + signed_decimal(binding_id as int) + ":"@
            + backend_name(backend) + ":"@ + session_id@ + ":"@ + window_id@ + ":"@ + pane_id@,
{
    let mut out = String::new();
    push_signed_decimal(&mut out, space_id);
    push_str(&mut out, ":");
    push_signed_decimal(&mut out, binding_id);
    push_str(&mut out, ":");
    push_str(&mut out, backend_label(backend));
    push_str(&mut out, ":");
    push_str(&mut out, session_id);
    push_str(&mut out, ":");
    push_str(&mut out, window_id);
    push_str(&mut out, ":");
    push_str(&mut out, pane_id);
    out
}

/// The lower-case hexadecimal digit of `d` (below 16).
pub open spec fn hex_digit(d: nat) -> char {
    if d < 10 {
        ((d + 48) as u8) as char
    } else {
        ((d + 87) as u8) as char
    }
}

/// `#rrggbb`, two lower-case hexadecimal digits per channel.
pub open spec fn color_hex_text(r: u8, g: u8, b: u8) -> Seq<char> {
    seq![
        '#',
        hex_digit(r as nat / 16),
        hex_digit(r as nat % 16),
        hex_digit(g as nat / 16),
        hex_digit(g as nat % 16),
        hex_digit(b as nat / 16),
        hex_digit(b as nat % 16),
    ]
}

fn hex_digit_char(d: u8) -> (c: char)
    requires
        d < 16,
    ensures
        c == hex_digit(d as nat),
{
    if d < 10 {
        (d + 48) as char
    } else {
        (d + 87) as char
    }
}

/// A color as `#rrggbb`.
pub fn color_hex(r: u8, g: u8, b: u8) -> (s: String)
    ensures
        s@ == color_hex_text(r, g, b),
{
    let mut s = String::new();
    crate::text::push_char(&mut s, '#');
    crate::text::push_char(&mut s, hex_digit_char(r / 16));
    crate::text::push_char(&mut s, hex_digit_char(r % 16));
    crate::text::push_char(&mut s, hex_digit_char(g / 16));
    crate::text::push_char(&mut s, hex_digit_char(g % 16));
    crate::text::push_char(&mut s, hex_digit_char(b / 16));
    crate::text::push_char(&mut s, hex_digit_char(b % 16));
    assert(s@ =~= color_hex_text(r, g, b));
    s
}

} // verus!
