use bootty_app::sidebar::{apply_sidebar_action, ensure_hovered, move_hover, SessionTarget, SidebarAction};
use bootty_app::toggles::InputFocus;
use bootty_app::windows::MuxScope;

fn target(session: &str) -> SessionTarget {
    SessionTarget {
        scope: MuxScope { space_id: 0, binding_id: 0 },
        session_id: session.to_owned(),
    }
}

fn listed() -> Vec<SessionTarget> {
    vec![target("$1"), target("$2"), target("$3")]
}

#[test]
fn the_highlight_starts_on_the_selected_session_or_the_first() {
    assert_eq!(ensure_hovered(&None, &listed(), &Some(target("$2"))), Some(target("$2")));
    assert_eq!(ensure_hovered(&None, &listed(), &None), Some(target("$1")));
    assert_eq!(ensure_hovered(&Some(target("$3")), &listed(), &Some(target("$2"))), Some(target("$3")));
    assert_eq!(ensure_hovered(&Some(target("$9")), &listed(), &None), Some(target("$1")));
    assert_eq!(ensure_hovered(&None, &[], &None), None);
}

#[test]
fn moving_the_highlight_wraps_round_the_list() {
    assert_eq!(move_hover(&Some(target("$3")), &listed(), &None, 1), Some(target("$1")));
    assert_eq!(move_hover(&Some(target("$1")), &listed(), &None, -1), Some(target("$3")));
    assert_eq!(move_hover(&None, &listed(), &Some(target("$2")), 1), Some(target("$3")));
    // A selected session that the sidebar does not list keeps the highlight where it is.
    assert_eq!(move_hover(&None, &listed(), &Some(target("$7")), 1), Some(target("$7")));
}

#[test]
fn activating_opens_the_highlighted_session_and_returns_to_the_terminal() {
    let out = apply_sidebar_action(SidebarAction::ActivateSession, &Some(target("$2")), &listed(), &None);
    assert_eq!(out.activate, Some(target("$2")));
    assert_eq!(out.focus, InputFocus::Terminal);
    let out = apply_sidebar_action(SidebarAction::NextSession, &Some(target("$2")), &listed(), &None);
    assert_eq!(out.hovered, Some(target("$3")));
    assert_eq!(out.focus, InputFocus::Sidebar);
    assert_eq!(out.activate, None);
    let out = apply_sidebar_action(SidebarAction::FocusTerminal, &None, &listed(), &None);
    assert_eq!(out.focus, InputFocus::Terminal);
    assert_eq!(out.hovered, Some(target("$1")));
}
