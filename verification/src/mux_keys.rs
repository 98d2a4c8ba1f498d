//! What a multiplexer key binding does: session navigation, which Bootty owns, and the command
//! each other action becomes for the active backend.
use vstd::prelude::*;
use crate::text::str_eq;
use crate::layout::{
    Direction, MuxDirection, MuxSplitDirection, SplitDirection, layout_direction,
    layout_direction_of, opt_str,
};

verus! {

/// A session as navigation sees it: its backend id and its name.
#[derive(Clone, Debug)]
pub struct SessionRef {
    pub id: String,
    pub name: String,
}

/// An action bound to a multiplexer key.
#[derive(Clone, Copy, Debug, PartialEq, Eq, Structural)]
pub enum MuxKeyAction {
    NextSession,
    PreviousSession,
    LastSession,
    SelectSession(u32),
    MoveSession(i32),
    NewTab,
    NextTab,
    PreviousTab,
    LastTab,
    SelectTab(u32),
    MoveTab(i32),
    SplitPane(SplitDirection),
    SelectPane(MuxDirection),
    NextPane,
    PreviousPane,
    KillPane,
    ClosePane,
    TogglePaneZoom,
}

/// The name a multiplexer key action goes by in bindings, scripts and the command catalog; the
/// actions that take a number have none.
pub open spec fn mux_action_name(a: MuxKeyAction) -> Option<Seq<char>> {
    match a {
        MuxKeyAction::NextSession => Some("next_session"@),
        MuxKeyAction::PreviousSession => Some("previous_session"@),
        MuxKeyAction::LastSession => Some("last_session"@),
        MuxKeyAction::NewTab => Some("new_tab"@),
        MuxKeyAction::NextTab => Some("next_tab"@),
        MuxKeyAction::PreviousTab => Some("previous_tab"@),
        MuxKeyAction::LastTab => Some("last_tab"@),
        MuxKeyAction::SplitPane(SplitDirection::Right) => Some("split_right"@),
        MuxKeyAction::SplitPane(SplitDirection::Down) => Some("split_down"@),
        MuxKeyAction::SelectPane(MuxDirection::Left) => Some("select_pane_left"@),
        MuxKeyAction::SelectPane(MuxDirection::Right) => Some("select_pane_right"@),
        MuxKeyAction::SelectPane(MuxDirection::Up) => Some("select_pane_up"@),
        MuxKeyAction::SelectPane(MuxDirection::Down) => Some("select_pane_down"@),
        MuxKeyAction::NextPane => Some("next_pane"@),
        MuxKeyAction::PreviousPane => Some("previous_pane"@),
        MuxKeyAction::KillPane => Some("kill_pane"@),
        MuxKeyAction::ClosePane => Some("close_surface"@),
        MuxKeyAction::TogglePaneZoom => Some("toggle_pane_zoom"@),
        _ => None,
    }
}

/// A command for the multiplexer backend.
#[allow(inconsistent_fields)]
#[derive(Clone, Debug)]
pub enum MuxCommand {
    NewWindow { session_id: String, cwd: Option<String> },
    ActivateNextWindow { session_id: String },
    ActivatePreviousWindow { session_id: String },
    ActivateLastWindow { session_id: String },
    ActivateWindowIndex { session_id: String, index: u32 },
    MoveWindow { session_id: String, window_id: Option<String>, delta: i32 },
    MoveWindowPreservingSelection {
        session_id: String,
        window_id: String,
        delta: i32,
        selected_window_id: String,
    },
    SelectPane { session_id: String, direction: MuxDirection },
    SelectNextPane { session_id: String },
    SelectPreviousPane { session_id: String },
    KillPane { session_id: String, pane_id: Option<String> },
    TogglePaneZoom { session_id: String },
    SplitPane { session_id: String, pane_id: Option<String>, direction: MuxSplitDirection },
}

/// `(current + delta)` wrapped into `0..len`.
pub open spec fn wrapped(current: int, delta: int, len: int) -> int {
    (current + delta) % len
}

/// Steps `delta` places from `current` in a ring of `len` items.
pub fn wrap_index(current: usize, delta: isize, len: usize) -> (r: usize)
    requires
        0 < len <= isize::MAX,
        current < len,
        isize::MIN <= current + delta <= isize::MAX,
    ensures
        r == wrapped(current as int, delta as int, len as int),
        r < len,
{
    let sum: isize = current as isize + delta;
    let m = sum.checked_rem_euclid(len as isize);
    match m {
        Some(v) => v as usize,
        None => 0,
    }
}

pub open spec fn session_matches(s: SessionRef, selected: Seq<char>) -> bool {
    s.id@ == selected || s.name@ == selected
}

/// The first session at or after `start` whose id or name is `selected`.
pub open spec fn first_match_from(sessions: Seq<SessionRef>, selected: Seq<char>, start: int) -> Option<
    int,
>
    decreases sessions.len() - start,
{
    if start < 0 || start >= sessions.len() {
        None
    } else if session_matches(sessions[start], selected) {
        Some(start)
    } else {
        first_match_from(sessions, selected, start + 1)
    }
}

/// Where the selected session stands in the list; the first session when none is selected or
/// the selection is not in the list.
pub open spec fn current_session_index(sessions: Seq<SessionRef>, selected: Option<Seq<char>>) -> int {
    match selected {
        Some(sel) => match first_match_from(sessions, sel, 0) {
            Some(i) => i,
            None => 0,
        },
        None => 0,
    }
}

/// The id of the session `delta` places from the selected one, wrapping round the list.
pub open spec fn relative_session_target(
    sessions: Seq<SessionRef>,
    selected: Option<Seq<char>>,
    delta: int,
) -> Option<Seq<char>> {
    if sessions.len() == 0 {
        None
    } else {
        Some(
            sessions[wrapped(current_session_index(sessions, selected), delta, sessions.len() as int)].id@,
        )
    }
}

/// The index of the first session whose id or name is `selected`.
pub fn find_session(sessions: &[SessionRef], selected: &str) -> (r: Option<usize>)
    ensures
        r matches Some(i) ==> i < sessions@.len() && first_match_from(sessions@, selected@, 0) == Some(
            i as int,
        ),
        r is None ==> first_match_from(sessions@, selected@, 0) is None,
{
    let mut i: usize = 0;
    while i < sessions.len()
        invariant
            i <= sessions@.len(),
            first_match_from(sessions@, selected@, 0) == first_match_from(sessions@, selected@, i as int),
        decreases sessions@.len() - i,
    {
        let s = &sessions[i];
        if str_eq(s.id.as_str(), selected) || str_eq(s.name.as_str(), selected) {
            return Some(i);
        }
        i = i + 1;
    }
    None
}

/// The session `delta` places from the selected one (see `relative_session_target`).
pub fn relative_session(sessions: &[SessionRef], selected: Option<&str>, delta: isize) -> (r: Option<
    String,
>)
    requires
        sessions@.len() <= isize::MAX,
        isize::MIN <= current_session_index(sessions@, opt_str(selected)) + delta <= isize::MAX,
    ensures
        crate::layout::opt_string(r) == relative_session_target(sessions@, opt_str(selected), delta as int),
{
    if sessions.len() == 0 {
        return None;
    }
    let current: usize = match selected {
        Some(sel) => match find_session(sessions, sel) {
            Some(i) => i,
            None => 0,
        },
        None => 0,
    };
    let next = wrap_index(current, delta, sessions.len());
    Some(sessions[next].id.clone())
}

/// The id of the session at the 1-based `index`, when there is one (index 0 picks the first).
pub open spec fn indexed_session_target(sessions: Seq<SessionRef>, index: u32) -> Option<Seq<char>> {
    let i = if index == 0 { 0int } else { index - 1 };
    if i < sessions.len() {
        Some(sessions[i].id@)
    } else {
        None
    }
}

/// The session a `select_session(index)` binding activates.
pub fn indexed_session(sessions: &[SessionRef], index: u32) -> (r: Option<String>)
    ensures
        crate::layout::opt_string(r) == indexed_session_target(sessions@, index),
{
    let i = index.saturating_sub(1) as usize;
    if i < sessions.len() {
        Some(sessions[i].id.clone())
    } else {
        None
    }
}

/// Whether Bootty itself handles the action as session navigation.
pub open spec fn is_session_navigation(action: MuxKeyAction) -> bool {
    match action {
        MuxKeyAction::SelectSession(_) | MuxKeyAction::NextSession | MuxKeyAction::PreviousSession
        | MuxKeyAction::LastSession => true,
        _ => false,
    }
}

/// The session a navigation action activates (`None`: nothing to activate).
pub open spec fn navigation_target(
    action: MuxKeyAction,
    sessions: Seq<SessionRef>,
    selected: Option<Seq<char>>,
    previous: Option<Seq<char>>,
) -> Option<Seq<char>> {
    match action {
        MuxKeyAction::SelectSession(index) => indexed_session_target(sessions, index),
        MuxKeyAction::NextSession => relative_session_target(sessions, selected, 1),
        MuxKeyAction::PreviousSession => relative_session_target(sessions, selected, -1),
        MuxKeyAction::LastSession => previous,
        _ => None,
    }
}

/// What the state of the multiplexer says when a key action is routed.
pub struct MuxKeyContext {
    /// The sessions of the active binding, in order.
    pub sessions: Vec<SessionRef>,
    pub selected_session: Option<String>,
    pub previous_session: Option<String>,
    pub selected_window: Option<String>,
    /// The directory a new tab starts in.
    pub selected_cwd: Option<String>,
    /// Whether Bootty lays out the panes itself (the native engine).
    pub native_layout: bool,
}

/// What to do for a multiplexer key action.
#[derive(Clone, Debug)]
pub enum MuxKeyRoute {
    /// Activate this session; `None` is a navigation with no target, which does nothing.
    ActivateSession(Option<String>),
    MoveSession(i32),
    ClosePane,
    SplitPane(SplitDirection),
    /// Move focus geometrically across the split layout.
    FocusNeighbor(Direction),
    /// Cycle focus across the split layout's leaves.
    FocusRelative(isize),
    /// No session is selected: a new tab starts a project session instead.
    CreateProjectSession,
    Execute(MuxCommand),
}

/// The session a command goes to: the selected one, or `local`.
pub open spec fn command_session(selected: Option<Seq<char>>) -> Seq<char> {
    match selected {
        Some(s) => s,
        None => "local"@,
    }
}

pub open spec fn route_opt(s: Option<String>) -> Option<Seq<char>> {
    crate::layout::opt_string(s)
}

/// The command an action becomes once Bootty has handled what it owns.
pub open spec fn command_for(
    action: MuxKeyAction,
    session: Seq<char>,
    window: Option<Seq<char>>,
    cwd: Option<Seq<char>>,
    c: MuxCommand,
) -> bool {
    match action {
        MuxKeyAction::NewTab => c matches MuxCommand::NewWindow { session_id, cwd: d } && session_id@
            == session && route_opt(d) == cwd,
        MuxKeyAction::NextTab => c matches MuxCommand::ActivateNextWindow { session_id } && session_id@
            == session,
        MuxKeyAction::PreviousTab => c matches MuxCommand::ActivatePreviousWindow { session_id }
            && session_id@ == session,
        MuxKeyAction::LastTab => c matches MuxCommand::ActivateLastWindow { session_id } && session_id@
            == session,
        MuxKeyAction::SelectTab(index) => c matches MuxCommand::ActivateWindowIndex {
            session_id,
            index: k,
        } && session_id@ == session && k == index,
        MuxKeyAction::MoveTab(delta) => c matches MuxCommand::MoveWindow {
            session_id,
            window_id,
            delta: d,
        } && session_id@ == session && route_opt(window_id) == window && d == delta,
        MuxKeyAction::SelectPane(direction) => c matches MuxCommand::SelectPane {
            session_id,
            direction: d,
        } && session_id@ == session && d == direction,
        MuxKeyAction::NextPane => c matches MuxCommand::SelectNextPane { session_id } && session_id@
            == session,
        MuxKeyAction::PreviousPane => c matches MuxCommand::SelectPreviousPane { session_id }
            && session_id@ == session,
        MuxKeyAction::KillPane => c matches MuxCommand::KillPane { session_id, pane_id }
            && session_id@ == session && pane_id is None,
        MuxKeyAction::TogglePaneZoom => c matches MuxCommand::TogglePaneZoom { session_id }
            && session_id@ == session,
        _ => false,
    }
}

/// The route of an action, given the multiplexer's state.
pub open spec fn routes_to(action: MuxKeyAction, ctx: MuxKeyContext, r: MuxKeyRoute) -> bool {
    if is_session_navigation(action) {
        r matches MuxKeyRoute::ActivateSession(t) && route_opt(t) == navigation_target(
            action,
            ctx.sessions@,
            route_opt(ctx.selected_session),
            route_opt(ctx.previous_session),
        )
    } else if action is MoveSession {
        r == MuxKeyRoute::MoveSession(action->MoveSession_0)
    } else if action == MuxKeyAction::ClosePane || (ctx.native_layout && action
        == MuxKeyAction::KillPane) {
        r == MuxKeyRoute::ClosePane
    } else if action is SplitPane {
        r == MuxKeyRoute::SplitPane(action->SplitPane_0)
    } else if ctx.native_layout && action is SelectPane {
        r == MuxKeyRoute::FocusNeighbor(layout_direction_of(action->SelectPane_0))
    } else if ctx.native_layout && action == MuxKeyAction::NextPane {
        r == MuxKeyRoute::FocusRelative(1isize)
    } else if ctx.native_layout && action == MuxKeyAction::PreviousPane {
        r == MuxKeyRoute::FocusRelative(-1isize)
    } else if action == MuxKeyAction::NewTab && ctx.selected_session is None {
        r == MuxKeyRoute::CreateProjectSession
    } else {
        r matches MuxKeyRoute::Execute(c) && command_for(
            action,
            command_session(route_opt(ctx.selected_session)),
            route_opt(ctx.selected_window),
            route_opt(ctx.selected_cwd),
            c,
        )
    }
}

fn clone_opt(s: &Option<String>) -> (r: Option<String>)
    ensures
        route_opt(r) == route_opt(*s),
{
    match s {
        Some(v) => Some(v.clone()),
        None => None,
    }
}

/// Routes a multiplexer key action (see `routes_to`).
pub fn route_mux_key_action(action: MuxKeyAction, ctx: &MuxKeyContext) -> (r: MuxKeyRoute)
    requires
        ctx.sessions@.len() <= isize::MAX,
    ensures
        routes_to(action, *ctx, r),
{
    match action {
        MuxKeyAction::SelectSession(index) => {
            return MuxKeyRoute::ActivateSession(indexed_session(ctx.sessions.as_slice(), index));
        },
        MuxKeyAction::NextSession => {
            let sel = match &ctx.selected_session {
                Some(s) => Some(s.as_str()),
                None => None,
            };
            proof {
                if ctx.sessions@.len() > 0 {
                    lemma_first_match_in_range(ctx.sessions@, opt_str(sel));
                }
            }
            return MuxKeyRoute::ActivateSession(relative_session(ctx.sessions.as_slice(), sel, 1));
        },
        MuxKeyAction::PreviousSession => {
            let sel = match &ctx.selected_session {
                Some(s) => Some(s.as_str()),
                None => None,
            };
            proof {
                if ctx.sessions@.len() > 0 {
                    lemma_first_match_in_range(ctx.sessions@, opt_str(sel));
                }
            }
            return MuxKeyRoute::ActivateSession(relative_session(ctx.sessions.as_slice(), sel, -1));
        },
        MuxKeyAction::LastSession => {
            return MuxKeyRoute::ActivateSession(clone_opt(&ctx.previous_session));
        },
        MuxKeyAction::MoveSession(delta) => {
            return MuxKeyRoute::MoveSession(delta);
        },
        MuxKeyAction::ClosePane => {
            return MuxKeyRoute::ClosePane;
        },
        MuxKeyAction::SplitPane(direction) => {
            return MuxKeyRoute::SplitPane(direction);
        },
        _ => {},
    }
    if ctx.native_layout {
        match action {
            MuxKeyAction::KillPane => {
                return MuxKeyRoute::ClosePane;
            },
            MuxKeyAction::SelectPane(direction) => {
                return MuxKeyRoute::FocusNeighbor(layout_direction(direction));
            },
            MuxKeyAction::NextPane => {
                return MuxKeyRoute::FocusRelative(1);
            },
            MuxKeyAction::PreviousPane => {
                return MuxKeyRoute::FocusRelative(-1);
            },
            _ => {},
        }
    }
    if action == MuxKeyAction::NewTab && ctx.selected_session.is_none() {
        return MuxKeyRoute::CreateProjectSession;
    }
    let session: String = match &ctx.selected_session {
        Some(s) => s.clone(),
        None => "local".to_owned(),
    };
    let command = match action {
        MuxKeyAction::NewTab => MuxCommand::NewWindow {
            session_id: session,
            cwd: clone_opt(&ctx.selected_cwd),
        },
        MuxKeyAction::NextTab => MuxCommand::ActivateNextWindow { session_id: session },
        MuxKeyAction::PreviousTab => MuxCommand::ActivatePreviousWindow { session_id: session },
        MuxKeyAction::LastTab => MuxCommand::ActivateLastWindow { session_id: session },
        MuxKeyAction::SelectTab(index) => MuxCommand::ActivateWindowIndex {
            session_id: session,
            index,
        },
        MuxKeyAction::MoveTab(delta) => MuxCommand::MoveWindow {
            session_id: session,
            window_id: clone_opt(&ctx.selected_window),
            delta,
        },
        MuxKeyAction::SelectPane(direction) => MuxCommand::SelectPane {
            session_id: session,
            direction,
        },
        MuxKeyAction::NextPane => MuxCommand::SelectNextPane { session_id: session },
        MuxKeyAction::PreviousPane => MuxCommand::SelectPreviousPane { session_id: session },
        MuxKeyAction::KillPane => MuxCommand::KillPane { session_id: session, pane_id: None },
        _ => MuxCommand::TogglePaneZoom { session_id: session },
    };
    MuxKeyRoute::Execute(command)
}

/// Next and previous session undo each other: stepping forward from the selected session and
/// then back from where that landed returns to the selected session's place.
pub proof fn lemma_next_then_previous_session(sessions: Seq<SessionRef>, selected: Option<Seq<char>>)
    requires
        sessions.len() > 0,
    ensures
        ({
            let n = sessions.len() as int;
            let c = current_session_index(sessions, selected);
            wrapped(wrapped(c, 1, n), -1, n) == c
        }),
{
    let n = sessions.len() as int;
    let c = current_session_index(sessions, selected);
    lemma_first_match_in_range(sessions, selected);
    assert(0 <= c < n);
    if c + 1 < n {
        assert((c + 1) % n == c + 1) by (nonlinear_arith)
            requires
                0 <= c + 1 < n,
        ;
        assert((c + 1 - 1) % n == c) by (nonlinear_arith)
            requires
                0 <= c < n,
        ;
    } else {
        assert((c + 1) % n == 0) by (nonlinear_arith)
            requires
                c + 1 == n,
                n > 0,
        ;
        assert((0 - 1) % n == n - 1) by (nonlinear_arith)
            requires
                n > 0,
        ;
    }
}

proof fn lemma_first_match_from_in_range(sessions: Seq<SessionRef>, selected: Seq<char>, start: int)
    ensures
        first_match_from(sessions, selected, start) matches Some(i) ==> start <= i < sessions.len(),
    decreases sessions.len() - start,
{
    if start < 0 || start >= sessions.len() {
    } else if session_matches(sessions[start], selected) {
    } else {
        lemma_first_match_from_in_range(sessions, selected, start + 1);
    }
}

/// The selected session's place is a place in the list.
pub proof fn lemma_first_match_in_range(sessions: Seq<SessionRef>, selected: Option<Seq<char>>)
    requires
        sessions.len() > 0,
    ensures
        0 <= current_session_index(sessions, selected) < sessions.len(),
{
    if let Some(sel) = selected {
        lemma_first_match_from_in_range(sessions, sel, 0);
    }
}

} // verus!
