use bootty_app::config::{WindowConfig, WindowFullscreen};
use bootty_app::toggles::{
    toggle_fullscreen, toggle_sidebar_focus, toggle_sidebar_visibility, FullscreenToggle,
    InputFocus, SidebarState, ViewportSnapshot,
};

#[test]
fn native_fullscreen_toggle_flips_the_window() {
    let window = WindowConfig { fullscreen: WindowFullscreen::Off };
    let viewport = ViewportSnapshot { fullscreen: false, maximized: true };
    assert_eq!(
        toggle_fullscreen(&window, false, false, viewport),
        FullscreenToggle { set_fullscreen: true, set_maximized: None, non_native_active: false }
    );
}

#[test]
fn non_native_fullscreen_toggle_maximizes_unless_the_platform_draws_the_frame() {
    let window = WindowConfig { fullscreen: WindowFullscreen::NonNative };
    let viewport = ViewportSnapshot { fullscreen: false, maximized: false };
    assert_eq!(
        toggle_fullscreen(&window, false, false, viewport),
        FullscreenToggle { set_fullscreen: false, set_maximized: Some(true), non_native_active: true }
    );
    assert_eq!(
        toggle_fullscreen(&window, true, true, viewport),
        FullscreenToggle { set_fullscreen: false, set_maximized: None, non_native_active: false }
    );
}

#[test]
fn sidebar_toggles_keep_focus_off_a_hidden_sidebar() {
    let start = SidebarState { focus: InputFocus::Terminal, sidebar_visible: false };
    let focused = toggle_sidebar_focus(start);
    assert_eq!(focused, SidebarState { focus: InputFocus::Sidebar, sidebar_visible: true });
    let hidden = toggle_sidebar_visibility(focused);
    assert_eq!(hidden, SidebarState { focus: InputFocus::Terminal, sidebar_visible: false });
    let shown = toggle_sidebar_visibility(SidebarState { focus: InputFocus::Picker, sidebar_visible: false });
    assert_eq!(shown, SidebarState { focus: InputFocus::Picker, sidebar_visible: true });
    assert_eq!(
        toggle_sidebar_focus(focused),
        SidebarState { focus: InputFocus::Terminal, sidebar_visible: true }
    );
}

#[test]
fn toggling_non_native_fullscreen_twice_restores_the_window() {
    let window = WindowConfig { fullscreen: WindowFullscreen::NonNative };
    for handles_frame in [false, true] {
        for maximized in [false, true] {
            let viewport = ViewportSnapshot { fullscreen: false, maximized };
            let first = toggle_fullscreen(&window, handles_frame, maximized, viewport);
            let after = ViewportSnapshot {
                fullscreen: first.set_fullscreen,
                maximized: first.set_maximized.unwrap_or(maximized),
            };
            let second = toggle_fullscreen(&window, handles_frame, first.non_native_active, after);
            assert_eq!(second.non_native_active, maximized);
            if let Some(m) = second.set_maximized {
                assert_eq!(m, maximized);
            }
        }
    }
}
