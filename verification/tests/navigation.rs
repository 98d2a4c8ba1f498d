use bootty_app::layout::{Direction, MuxDirection, SplitDirection};
use bootty_app::mux_keys::{
    indexed_session, relative_session, route_mux_key_action, wrap_index, MuxCommand,
    MuxKeyAction, MuxKeyContext, MuxKeyRoute, SessionRef,
};
use bootty_app::order::stable_order;
use bootty_app::spaces::{
    close_space_plan, relative_space_target, select_space_target, space_summaries,
    CloseSpacePlan, PositionedSpace, SpaceId, SpaceSummary,
};
use bootty_app::windows::{
    last_window_target, move_window_command, relative_pane, relative_window,
    reorder_window_delta, sort_windows, terminal_title_window, title_renames_tab,
    title_sets_window_title, MuxScope, ScopedWindowId, SessionWindows, WindowKey, WindowRef,
};

fn session(id: &str, name: &str) -> SessionRef {
    SessionRef {
        id: id.to_owned(),
        name: name.to_owned(),
    }
}

fn sessions() -> Vec<SessionRef> {
    vec![session("$1", "alpha"), session("$2", "beta"), session("$3", "gamma")]
}

#[test]
fn wrap_index_steps_round_the_ring() {
    assert_eq!(wrap_index(0, -1, 3), 2);
    assert_eq!(wrap_index(2, 1, 3), 0);
    assert_eq!(wrap_index(1, 1, 3), 2);
    assert_eq!(wrap_index(0, 7, 3), 1);
}

#[test]
fn relative_session_wraps_and_matches_id_or_name() {
    let list = sessions();
    assert_eq!(relative_session(&list, Some("$3"), 1), Some("$1".to_owned()));
    assert_eq!(relative_session(&list, Some("alpha"), -1), Some("$3".to_owned()));
    assert_eq!(relative_session(&list, Some("beta"), 1), Some("$3".to_owned()));
    assert_eq!(relative_session(&list, Some("missing"), 1), Some("$2".to_owned()));
    assert_eq!(relative_session(&list, None, -1), Some("$3".to_owned()));
    assert_eq!(relative_session(&[], Some("$1"), 1), None);
}

#[test]
fn indexed_session_is_one_based() {
    let list = sessions();
    assert_eq!(indexed_session(&list, 1), Some("$1".to_owned()));
    assert_eq!(indexed_session(&list, 0), Some("$1".to_owned()));
    assert_eq!(indexed_session(&list, 3), Some("$3".to_owned()));
    assert_eq!(indexed_session(&list, 4), None);
}

fn context(selected: Option<&str>, native: bool) -> MuxKeyContext {
    MuxKeyContext {
        sessions: sessions(),
        selected_session: selected.map(str::to_owned),
        previous_session: Some("$2".to_owned()),
        selected_window: Some("@4".to_owned()),
        selected_cwd: Some("/work".to_owned()),
        native_layout: native,
    }
}

#[test]
fn session_navigation_is_handled_by_bootty() {
    let ctx = context(Some("$1"), false);
    assert!(matches!(
        route_mux_key_action(MuxKeyAction::NextSession, &ctx),
        MuxKeyRoute::ActivateSession(Some(id)) if id == "$2"
    ));
    assert!(matches!(
        route_mux_key_action(MuxKeyAction::PreviousSession, &ctx),
        MuxKeyRoute::ActivateSession(Some(id)) if id == "$3"
    ));
    assert!(matches!(
        route_mux_key_action(MuxKeyAction::LastSession, &ctx),
        MuxKeyRoute::ActivateSession(Some(id)) if id == "$2"
    ));
    assert!(matches!(
        route_mux_key_action(MuxKeyAction::SelectSession(9), &ctx),
        MuxKeyRoute::ActivateSession(None)
    ));
    assert!(matches!(
        route_mux_key_action(MuxKeyAction::MoveSession(-1), &ctx),
        MuxKeyRoute::MoveSession(-1)
    ));
}

#[test]
fn native_layout_keeps_pane_focus_local() {
    let native = context(Some("$1"), true);
    assert!(matches!(
        route_mux_key_action(MuxKeyAction::SelectPane(MuxDirection::Up), &native),
        MuxKeyRoute::FocusNeighbor(Direction::Up)
    ));
    assert!(matches!(
        route_mux_key_action(MuxKeyAction::NextPane, &native),
        MuxKeyRoute::FocusRelative(1)
    ));
    assert!(matches!(
        route_mux_key_action(MuxKeyAction::PreviousPane, &native),
        MuxKeyRoute::FocusRelative(-1)
    ));
    assert!(matches!(
        route_mux_key_action(MuxKeyAction::KillPane, &native),
        MuxKeyRoute::ClosePane
    ));
    assert!(matches!(
        route_mux_key_action(MuxKeyAction::SplitPane(SplitDirection::Down), &native),
        MuxKeyRoute::SplitPane(SplitDirection::Down)
    ));

    let tmux = context(Some("$1"), false);
    assert!(matches!(
        route_mux_key_action(MuxKeyAction::KillPane, &tmux),
        MuxKeyRoute::Execute(MuxCommand::KillPane { session_id, pane_id: None }) if session_id == "$1"
    ));
    assert!(matches!(
        route_mux_key_action(MuxKeyAction::SelectPane(MuxDirection::Left), &tmux),
        MuxKeyRoute::Execute(MuxCommand::SelectPane { direction: MuxDirection::Left, .. })
    ));
}

#[test]
fn tab_actions_become_commands_for_the_selected_session() {
    let ctx = context(Some("$2"), false);
    assert!(matches!(
        route_mux_key_action(MuxKeyAction::NewTab, &ctx),
        MuxKeyRoute::Execute(MuxCommand::NewWindow { session_id, cwd: Some(cwd) })
            if session_id == "$2" && cwd == "/work"
    ));
    assert!(matches!(
        route_mux_key_action(MuxKeyAction::MoveTab(-1), &ctx),
        MuxKeyRoute::Execute(MuxCommand::MoveWindow { session_id, window_id: Some(w), delta: -1 })
            if session_id == "$2" && w == "@4"
    ));
    assert!(matches!(
        route_mux_key_action(MuxKeyAction::SelectTab(3), &ctx),
        MuxKeyRoute::Execute(MuxCommand::ActivateWindowIndex { index: 3, .. })
    ));
    let none = context(None, false);
    assert!(matches!(
        route_mux_key_action(MuxKeyAction::NewTab, &none),
        MuxKeyRoute::CreateProjectSession
    ));
    assert!(matches!(
        route_mux_key_action(MuxKeyAction::NextTab, &none),
        MuxKeyRoute::Execute(MuxCommand::ActivateNextWindow { session_id }) if session_id == "local"
    ));
}

#[test]
fn stable_order_sorts_by_key_and_keeps_ties_in_place() {
    assert_eq!(stable_order(&[3, 1, 2, 1]), vec![1, 3, 2, 0]);
    assert_eq!(stable_order(&[]), Vec::<usize>::new());
    assert_eq!(stable_order(&[i64::MIN, i64::MAX, 0]), vec![0, 2, 1]);
}

fn summary(id: i64, name: &str, active: bool) -> SpaceSummary {
    SpaceSummary {
        id: SpaceId(id),
        name: name.to_owned(),
        icon: "star".to_owned(),
        color: [1, 2, 3],
        tint_sidebar: false,
        active,
    }
}

#[test]
fn space_summaries_follow_positions() {
    let spaces = vec![
        PositionedSpace { position: 2, summary: summary(10, "work", true) },
        PositionedSpace { position: 0, summary: summary(11, "home", false) },
        PositionedSpace { position: 2, summary: summary(12, "play", false) },
    ];
    let ordered = space_summaries(&spaces);
    let names: Vec<&str> = ordered.iter().map(|s| s.name.as_str()).collect();
    assert_eq!(names, vec!["home", "work", "play"]);
    assert_eq!(ordered[1], summary(10, "work", true));
}

#[test]
fn space_navigation_stops_at_the_ends() {
    let list = vec![summary(1, "a", false), summary(2, "b", true), summary(3, "c", false)];
    assert_eq!(select_space_target(&list, 1), Some(SpaceId(1)));
    assert_eq!(select_space_target(&list, 0), None);
    assert_eq!(select_space_target(&list, 4), None);
    assert_eq!(relative_space_target(&list, 1), Some(SpaceId(3)));
    assert_eq!(relative_space_target(&list, -1), Some(SpaceId(1)));
    assert_eq!(relative_space_target(&list, 2), None);
    assert_eq!(relative_space_target(&list, -2), None);
    let no_active = vec![summary(1, "a", false)];
    assert_eq!(relative_space_target(&no_active, 0), None);
}

#[test]
fn closing_a_space_hands_over_to_a_neighbour() {
    let list = vec![summary(1, "a", false), summary(2, "b", true), summary(3, "c", false)];
    assert_eq!(
        close_space_plan(&list, SpaceId(2), SpaceId(2)),
        CloseSpacePlan::Close { activate_first: Some(SpaceId(3)) }
    );
    assert_eq!(
        close_space_plan(&list, SpaceId(3), SpaceId(3)),
        CloseSpacePlan::Close { activate_first: Some(SpaceId(2)) }
    );
    assert_eq!(
        close_space_plan(&list, SpaceId(1), SpaceId(2)),
        CloseSpacePlan::Close { activate_first: None }
    );
    assert_eq!(close_space_plan(&list, SpaceId(9), SpaceId(2)), CloseSpacePlan::Refuse);
    assert_eq!(
        close_space_plan(&list[..1], SpaceId(1), SpaceId(1)),
        CloseSpacePlan::Refuse
    );
}

fn window(id: &str, index: u32) -> WindowRef {
    WindowRef {
        id: id.to_owned(),
        index,
    }
}

fn tabbed() -> Vec<SessionWindows> {
    vec![SessionWindows {
        id: "$1".to_owned(),
        name: "alpha".to_owned(),
        windows: vec![window("@3", 2), window("@1", 0), window("@2", 1)],
        active_window_id: Some("@1".to_owned()),
    }]
}

#[test]
fn tabs_are_walked_in_index_order() {
    let sorted = sort_windows(&tabbed()[0].windows);
    let ids: Vec<&str> = sorted.iter().map(|w| w.id.as_str()).collect();
    assert_eq!(ids, vec!["@1", "@2", "@3"]);
    assert_eq!(
        relative_window(&tabbed(), "alpha", "@3", 1),
        Some(("$1".to_owned(), "@1".to_owned()))
    );
    assert_eq!(
        relative_window(&tabbed(), "$1", "@1", -1),
        Some(("$1".to_owned(), "@3".to_owned()))
    );
    assert_eq!(relative_window(&tabbed(), "$9", "@1", 1), None);
    assert_eq!(relative_window(&tabbed(), "$1", "@9", 1), None);
    assert_eq!(last_window_target(&tabbed(), "alpha"), Some("$1".to_owned()));
}

#[test]
fn moving_a_tab_clamps_and_preserves_the_selection() {
    let list = tabbed();
    assert!(move_window_command(&list, "$1", "@1", -1, None, None).is_none());
    assert!(matches!(
        move_window_command(&list, "$1", "@2", 5, Some("$1"), Some("@3")),
        Some(MuxCommand::MoveWindowPreservingSelection { window_id, delta: 5, selected_window_id, .. })
            if window_id == "@2" && selected_window_id == "@3"
    ));
    assert!(matches!(
        move_window_command(&list, "$1", "@1", 1, Some("$1"), Some("@1")),
        Some(MuxCommand::MoveWindow { window_id: Some(w), delta: 1, .. }) if w == "@1"
    ));
    // Another session is selected: the session's own active tab is kept.
    assert!(matches!(
        move_window_command(&list, "$1", "@3", -1, Some("$2"), Some("@9")),
        Some(MuxCommand::MoveWindowPreservingSelection { selected_window_id, .. })
            if selected_window_id == "@1"
    ));
}

#[test]
fn dragging_a_tab_moves_it_before_its_target() {
    let ids: Vec<String> = ["@1", "@2", "@3", "@4"].iter().map(|s| s.to_string()).collect();
    assert_eq!(reorder_window_delta(&ids, "@4", Some("@2")), Some(-2));
    assert_eq!(reorder_window_delta(&ids, "@1", None), Some(3));
    assert_eq!(reorder_window_delta(&ids, "@1", Some("@3")), Some(1));
    assert_eq!(reorder_window_delta(&ids, "@2", Some("@3")), None);
    assert_eq!(reorder_window_delta(&ids, "@2", Some("@2")), None);
    assert_eq!(reorder_window_delta(&ids, "@9", None), None);
}

#[test]
fn pane_focus_cycles_through_the_layout() {
    let panes: Vec<String> = ["%1", "%2", "%3"].iter().map(|s| s.to_string()).collect();
    assert_eq!(relative_pane(&panes, "%3", 1), Some("%1".to_owned()));
    assert_eq!(relative_pane(&panes, "%1", -1), Some("%3".to_owned()));
    assert_eq!(relative_pane(&panes[..1], "%1", 1), None);
    assert_eq!(relative_pane(&panes, "%9", 1), None);
}

fn key(session: &str, window: &str) -> WindowKey {
    WindowKey {
        session_id: session.to_owned(),
        window_id: window.to_owned(),
    }
}

#[test]
fn terminal_titles_go_to_the_tab_of_their_pane() {
    assert_eq!(
        terminal_title_window(Some("%2"), Some(key("$1", "@2")), key("$1", "@1")),
        Some(key("$1", "@2"))
    );
    assert_eq!(terminal_title_window(Some("%9"), None, key("$1", "@1")), None);
    assert_eq!(
        terminal_title_window(None, Some(key("$1", "@2")), key("$1", "@1")),
        Some(key("$1", "@1"))
    );
    assert_eq!(terminal_title_window(None, None, key("$1", "")), None);
    assert!(title_renames_tab(false, Some("zsh"), "vim"));
    assert!(!title_renames_tab(false, Some("vim"), "vim"));
    assert!(!title_renames_tab(true, Some("zsh"), "vim"));
    assert!(title_renames_tab(false, None, "vim"));
    assert!(title_sets_window_title(None, Some("%1")));
    assert!(title_sets_window_title(Some("%1"), Some("%1")));
    assert!(!title_sets_window_title(Some("%1"), Some("%2")));
    assert!(!title_sets_window_title(Some("%1"), None));
}

#[test]
fn scoped_window_ids_keep_their_parts() {
    let scope = MuxScope { space_id: 1, binding_id: 2 };
    let id = ScopedWindowId::new(scope, "$1".to_owned(), "@3".to_owned());
    assert_eq!(id.scope, scope);
    assert_eq!(id.session_id, "$1");
    assert_eq!(id.window_id, "@3");
}

#[test]
fn next_then_previous_session_returns_to_the_start() {
    let list = sessions();
    for start in ["$1", "$2", "$3"] {
        let next = relative_session(&list, Some(start), 1).unwrap();
        assert_eq!(relative_session(&list, Some(&next), -1).unwrap(), start);
    }
}
