//! Tabs (multiplexer windows) and panes: which one a navigation or a move lands on.
use vstd::prelude::*;
use crate::text::{str_eq, strip_prefix};
use crate::layout::{opt_str, opt_string};
use crate::mux_keys::{MuxCommand, wrap_index, wrapped};
use crate::order::{stable_order, stable_order_of, is_stable_order};

verus! {

/// A tab of a session: its id and the index the backend numbers it with.
#[derive(Clone, Debug)]
pub struct WindowRef {
    pub id: String,
    pub index: u32,
}

/// A session with its tabs.
#[derive(Clone, Debug)]
pub struct SessionWindows {
    pub id: String,
    pub name: String,
    pub windows: Vec<WindowRef>,
    pub active_window_id: Option<String>,
}

pub open spec fn window_keys(ws: Seq<WindowRef>) -> Seq<i64> {
    Seq::new(ws.len(), |i: int| ws[i].index as i64)
}

/// The tabs ordered by their index, ties in the order the backend listed them.
pub open spec fn windows_by_index(ws: Seq<WindowRef>) -> Seq<WindowRef> {
    Seq::new(ws.len(), |k: int| ws[stable_order_of(window_keys(ws))[k] as int])
}

/// The tabs of `ws` ordered by index (`windows_by_index`).
pub fn sort_windows(ws: &[WindowRef]) -> (out: Vec<WindowRef>)
    ensures
        out@ == windows_by_index(ws@),
        forall|k: int, l: int|
            0 <= k < l < out@.len() ==> (#[trigger] out@[k]).index <= (#[trigger] out@[l]).index,
{
    let mut keys: Vec<i64> = Vec::new();
    let mut i: usize = 0;
    while i < ws.len()
        invariant
            i <= ws@.len(),
            keys@ == window_keys(ws@).subrange(0, i as int),
        decreases ws@.len() - i,
    {
        keys.push(ws[i].index as i64);
        i = i + 1;
    }
    assert(keys@ == window_keys(ws@));
    let order = stable_order(keys.as_slice());
    let mut out: Vec<WindowRef> = Vec::new();
    let mut k: usize = 0;
    while k < order.len()
        invariant
            keys@ == window_keys(ws@),
            order@ == stable_order_of(keys@),
            is_stable_order(order@, keys@),
            k <= order@.len(),
            out@.len() == k,
            forall|m: int| 0 <= m < k ==> #[trigger] out@[m] == ws@[order@[m] as int],
        decreases order@.len() - k,
    {
        let p = order[k];
        out.push(WindowRef { id: ws[p].id.clone(), index: ws[p].index });
        k = k + 1;
    }
    assert(out@ =~= windows_by_index(ws@));
    assert forall|k: int, l: int| 0 <= k < l < out@.len() implies (#[trigger] out@[k]).index <= (
    #[trigger] out@[l]).index by {
        assert(crate::order::key_before(keys@, order@[k] as int, order@[l] as int));
    }
    out
}

/// The first place at or after `start` holding a tab with the id `id`.
pub open spec fn first_window_from(ws: Seq<WindowRef>, id: Seq<char>, start: int) -> Option<int>
    decreases ws.len() - start,
{
    if start < 0 || start >= ws.len() {
        None
    } else if ws[start].id@ == id {
        Some(start)
    } else {
        first_window_from(ws, id, start + 1)
    }
}

pub proof fn lemma_first_window_found(ws: Seq<WindowRef>, id: Seq<char>, start: int)
    ensures
        first_window_from(ws, id, start) matches Some(i) ==> start <= i < ws.len() && ws[i].id@ == id,
    decreases ws.len() - start,
{
    if start >= 0 && start < ws.len() && ws[start].id@ != id {
        lemma_first_window_found(ws, id, start + 1);
    }
}

/// The place of the first tab with the id `id`.
pub fn find_window(ws: &[WindowRef], id: &str) -> (r: Option<usize>)
    ensures
        match r {
            Some(i) => first_window_from(ws@, id@, 0) == Some(i as int) && i < ws@.len(),
            None => first_window_from(ws@, id@, 0) is None,
        },
{
    let mut i: usize = 0;
    while i < ws.len()
        invariant
            i <= ws@.len(),
            first_window_from(ws@, id@, 0) == first_window_from(ws@, id@, i as int),
        decreases ws@.len() - i,
    {
        if str_eq(ws[i].id.as_str(), id) {
            return Some(i);
        }
        i = i + 1;
    }
    None
}

/// The first session at or after `start` whose id or name is `key`.
pub open spec fn first_session_from(sessions: Seq<SessionWindows>, key: Seq<char>, start: int) -> Option<int>
    decreases sessions.len() - start,
{
    if start < 0 || start >= sessions.len() {
        None
    } else if sessions[start].id@ == key || sessions[start].name@ == key {
        Some(start)
    } else {
        first_session_from(sessions, key, start + 1)
    }
}

/// The place of the first session whose id or name is `key`.
pub fn find_session_windows(sessions: &[SessionWindows], key: &str) -> (r: Option<usize>)
    ensures
        match r {
            Some(i) => first_session_from(sessions@, key@, 0) == Some(i as int) && i < sessions@.len(),
            None => first_session_from(sessions@, key@, 0) is None,
        },
{
    let mut i: usize = 0;
    while i < sessions.len()
        invariant
            i <= sessions@.len(),
            first_session_from(sessions@, key@, 0) == first_session_from(sessions@, key@, i as int),
        decreases sessions@.len() - i,
    {
        if str_eq(sessions[i].id.as_str(), key) || str_eq(sessions[i].name.as_str(), key) {
            return Some(i);
        }
        i = i + 1;
    }
    None
}

/// The tab `delta` places from `window_id` among the session's tabs ordered by index, wrapping
/// round; none when the session or the tab is not found.
pub open spec fn relative_window_target(
    sessions: Seq<SessionWindows>,
    session_key: Seq<char>,
    window_id: Seq<char>,
    delta: int,
) -> Option<(Seq<char>, Seq<char>)> {
    match first_session_from(sessions, session_key, 0) {
        None => None,
        Some(s) => {
            let sorted = windows_by_index(sessions[s].windows@);
            match first_window_from(sorted, window_id, 0) {
                None => None,
                Some(c) => Some(
                    (sessions[s].id@, sorted[wrapped(c, delta, sorted.len() as int)].id@),
                ),
            }
        },
    }
}

pub open spec fn opt_pair(r: Option<(String, String)>) -> Option<(Seq<char>, Seq<char>)> {
    match r {
        Some((a, b)) => Some((a@, b@)),
        None => None,
    }
}

/// The session's tab count fits an `isize`, and stepping `delta` from the tab's place stays
/// within `isize`.
pub open spec fn relative_window_in_range(
    sessions: Seq<SessionWindows>,
    session_key: Seq<char>,
    window_id: Seq<char>,
    delta: int,
) -> bool {
    match first_session_from(sessions, session_key, 0) {
        None => true,
        Some(s) => {
            &&& sessions[s].windows@.len() <= isize::MAX
            &&& match first_window_from(windows_by_index(sessions[s].windows@), window_id, 0) {
                Some(c) => isize::MIN <= c + delta <= isize::MAX,
                None => true,
            }
        },
    }
}

/// The session id and the tab that "next tab"/"previous tab" from the sidebar activates.
pub fn relative_window(
    sessions: &[SessionWindows],
    session_key: &str,
    window_id: &str,
    delta: isize,
) -> (r: Option<(String, String)>)
    requires
        relative_window_in_range(sessions@, session_key@, window_id@, delta as int),
    ensures
        opt_pair(r) == relative_window_target(sessions@, session_key@, window_id@, delta as int),
{
    let s = match find_session_windows(sessions, session_key) {
        Some(s) => s,
        None => return None,
    };
    let session = &sessions[s];
    let sorted = sort_windows(session.windows.as_slice());
    let c = match find_window(sorted.as_slice(), window_id) {
        Some(c) => c,
        None => return None,
    };
    assert(sessions@[s as int].windows@.len() == sorted@.len());
    let next = wrap_index(c, delta, sorted.len());
    Some((session.id.clone(), sorted[next].id.clone()))
}

/// The session whose last tab "last tab" activates: one with more than one tab.
pub open spec fn last_window_session(sessions: Seq<SessionWindows>, session_key: Seq<char>) -> Option<
    Seq<char>,
> {
    match first_session_from(sessions, session_key, 0) {
        Some(s) => if sessions[s].windows.len() > 1 {
            Some(sessions[s].id@)
        } else {
            None
        },
        None => None,
    }
}

pub fn last_window_target(sessions: &[SessionWindows], session_key: &str) -> (r: Option<String>)
    ensures
        opt_string(r) == last_window_session(sessions@, session_key@),
{
    match find_session_windows(sessions, session_key) {
        Some(s) => if sessions[s].windows.len() > 1 {
            Some(sessions[s].id.clone())
        } else {
            None
        },
        None => None,
    }
}

pub open spec fn clamp(x: int, lo: int, hi: int) -> int {
    if x < lo {
        lo
    } else if x > hi {
        hi
    } else {
        x
    }
}

/// The tab that keeps the selection while another one moves: the selected tab when the selected
/// session is this one and the tab is among its tabs, else the session's own active tab.
pub open spec fn preserved_window(
    session: SessionWindows,
    sorted: Seq<WindowRef>,
    selected_session: Option<Seq<char>>,
    selected_window: Option<Seq<char>>,
) -> Option<Seq<char>> {
    let session_selected = match selected_session {
        Some(sel) => sel == session.id@ || sel == session.name@,
        None => false,
    };
    let window_listed = match selected_window {
        Some(w) => first_window_from(sorted, w, 0) is Some,
        None => false,
    };
    if session_selected && window_listed {
        selected_window
    } else {
        opt_string(session.active_window_id)
    }
}

/// The command that moves a tab `delta` places, clamped to the ends of the tab list; none when
/// the session or tab is not found or the tab would not move.
pub open spec fn move_window_command_for(
    sessions: Seq<SessionWindows>,
    session_key: Seq<char>,
    window_id: Seq<char>,
    delta: i32,
    selected_session: Option<Seq<char>>,
    selected_window: Option<Seq<char>>,
    r: Option<MuxCommand>,
) -> bool {
    match first_session_from(sessions, session_key, 0) {
        None => r is None,
        Some(s) => {
            let session = sessions[s];
            let sorted = windows_by_index(session.windows@);
            match first_window_from(sorted, window_id, 0) {
                None => r is None,
                Some(p) => {
                    let target = clamp(p + delta, 0, sorted.len() - 1);
                    if target == p {
                        r is None
                    } else {
                        match preserved_window(session, sorted, selected_session, selected_window) {
                            Some(keep) => if keep != window_id {
                                r matches Some(
                                    MuxCommand::MoveWindowPreservingSelection {
                                        session_id,
                                        window_id: w,
                                        delta: d,
                                        selected_window_id,
                                    },
                                ) && session_id@ == session.id@ && w@ == window_id && d == delta
                                    && selected_window_id@ == keep
                            } else {
                                r matches Some(MuxCommand::MoveWindow { session_id, window_id: w, delta: d })
                                    && session_id@ == session.id@ && opt_string(w) == Some(window_id)
                                    && d == delta
                            },
                            None => r matches Some(
                                MuxCommand::MoveWindow { session_id, window_id: w, delta: d },
                            ) && session_id@ == session.id@ && opt_string(w) == Some(window_id) && d
                                == delta,
                        }
                    }
                },
            }
        },
    }
}

/// The session's tab count fits an `i32`, and moving `delta` from the tab's place stays
/// within `i32`.
pub open spec fn move_window_in_range(
    sessions: Seq<SessionWindows>,
    session_key: Seq<char>,
    window_id: Seq<char>,
    delta: int,
) -> bool {
    match first_session_from(sessions, session_key, 0) {
        None => true,
        Some(s) => {
            &&& sessions[s].windows@.len() <= i32::MAX
            &&& match first_window_from(windows_by_index(sessions[s].windows@), window_id, 0) {
                Some(p) => i32::MIN <= p + delta <= i32::MAX,
                None => true,
            }
        },
    }
}

/// The command for moving a tab from the sidebar (see `move_window_command_for`).
pub fn move_window_command(
    sessions: &[SessionWindows],
    session_key: &str,
    window_id: &str,
    delta: i32,
    selected_session: Option<&str>,
    selected_window: Option<&str>,
) -> (r: Option<MuxCommand>)
    requires
        move_window_in_range(sessions@, session_key@, window_id@, delta as int),
    ensures
        move_window_command_for(
            sessions@,
            session_key@,
            window_id@,
            delta,
            opt_str(selected_session),
            opt_str(selected_window),
            r,
        ),
{
    let s = match find_session_windows(sessions, session_key) {
        Some(s) => s,
        None => return None,
    };
    let session = &sessions[s];
    let sorted = sort_windows(session.windows.as_slice());
    let p = match find_window(sorted.as_slice(), window_id) {
        Some(p) => p,
        None => return None,
    };
    assert(session.windows@.len() == sorted@.len());
    let count = sorted.len() as i32;
    let moved: i32 = p as i32 + delta;
    let target: i32 = if moved < 0 {
        0
    } else if moved > count - 1 {
        count - 1
    } else {
        moved
    };
    if target == p as i32 {
        return None;
    }
    let session_selected = match selected_session {
        Some(sel) => str_eq(sel, session.id.as_str()) || str_eq(sel, session.name.as_str()),
        None => false,
    };
    let keep: Option<String> = match selected_window {
        Some(w) => if session_selected && find_window(sorted.as_slice(), w).is_some() {
            Some(w.to_owned())
        } else {
            match &session.active_window_id {
                Some(a) => Some(a.clone()),
                None => None,
            }
        },
        None => match &session.active_window_id {
            Some(a) => Some(a.clone()),
            None => None,
        },
    };
    match keep {
        Some(k) => {
            if !str_eq(k.as_str(), window_id) {
                return Some(
                    MuxCommand::MoveWindowPreservingSelection {
                        session_id: session.id.clone(),
                        window_id: window_id.to_owned(),
                        delta,
                        selected_window_id: k,
                    },
                );
            }
        },
        None => {},
    }
    Some(
        MuxCommand::MoveWindow {
            session_id: session.id.clone(),
            window_id: Some(window_id.to_owned()),
            delta,
        },
    )
}

/// The first place at or after `start` whose id is `id`.
pub open spec fn first_id_from(ids: Seq<String>, id: Seq<char>, start: int) -> Option<int>
    decreases ids.len() - start,
{
    if start < 0 || start >= ids.len() {
        None
    } else if ids[start]@ == id {
        Some(start)
    } else {
        first_id_from(ids, id, start + 1)
    }
}

/// How many of the first `upto` ids are not `source`.
pub open spec fn count_others(ids: Seq<String>, source: Seq<char>, upto: int) -> int
    decreases upto,
{
    if upto <= 0 {
        0
    } else {
        count_others(ids, source, upto - 1) + if ids[upto - 1]@ != source {
            1int
        } else {
            0int
        }
    }
}

/// How far a drag moves the tab `source` to drop it before the tab `before` (or at the end):
/// its place among the other tabs, less its current place; none when it would not move.
pub open spec fn reorder_delta(ids: Seq<String>, source: Seq<char>, before: Option<Seq<char>>) -> Option<
    int,
> {
    if before == Some(source) {
        None
    } else {
        match first_id_from(ids, source, 0) {
            None => None,
            Some(from) => {
                let to = match before {
                    Some(b) => match first_id_from(ids, b, 0) {
                        Some(k) => count_others(ids, source, k),
                        None => count_others(ids, source, ids.len() as int),
                    },
                    None => count_others(ids, source, ids.len() as int),
                };
                if to == from {
                    None
                } else {
                    Some(to - from)
                }
            },
        }
    }
}

fn find_id(ids: &[String], id: &str) -> (r: Option<usize>)
    ensures
        match r {
            Some(i) => first_id_from(ids@, id@, 0) == Some(i as int) && i < ids@.len(),
            None => first_id_from(ids@, id@, 0) is None,
        },
{
    let mut i: usize = 0;
    while i < ids.len()
        invariant
            i <= ids@.len(),
            first_id_from(ids@, id@, 0) == first_id_from(ids@, id@, i as int),
        decreases ids@.len() - i,
    {
        if str_eq(ids[i].as_str(), id) {
            return Some(i);
        }
        i = i + 1;
    }
    None
}

fn count_other_ids(ids: &[String], source: &str, upto: usize) -> (r: usize)
    requires
        upto <= ids@.len(),
    ensures
        r == count_others(ids@, source@, upto as int),
        r <= upto,
{
    let mut c: usize = 0;
    let mut i: usize = 0;
    while i < upto
        invariant
            upto <= ids@.len(),
            i <= upto,
            c == count_others(ids@, source@, i as int),
            c <= i,
        decreases upto - i,
    {
        if !str_eq(ids[i].as_str(), source) {
            c = c + 1;
        }
        i = i + 1;
    }
    c
}

/// The move a tab drag asks for (see `reorder_delta`).
pub fn reorder_window_delta(ids: &[String], source: &str, before: Option<&str>) -> (r: Option<i32>)
    requires
        ids@.len() <= i32::MAX,
    ensures
        match r {
            Some(d) => reorder_delta(ids@, source@, opt_str(before)) == Some(d as int),
            None => reorder_delta(ids@, source@, opt_str(before)) is None,
        },
{
    if let Some(b) = before {
        if str_eq(b, source) {
            return None;
        }
    }
    let from = match find_id(ids, source) {
        Some(f) => f,
        None => return None,
    };
    let to = match before {
        Some(b) => match find_id(ids, b) {
            Some(k) => count_other_ids(ids, source, k),
            None => count_other_ids(ids, source, ids.len()),
        },
        None => count_other_ids(ids, source, ids.len()),
    };
    if to == from {
        None
    } else {
        Some(to as i32 - from as i32)
    }
}

/// The pane `delta` places from the focused one among the layout's panes, wrapping round; none
/// with fewer than two panes or when the focused pane is not among them.
pub open spec fn relative_pane_target(panes: Seq<String>, focused: Seq<char>, delta: int) -> Option<Seq<char>> {
    if panes.len() < 2 {
        None
    } else {
        match first_id_from(panes, focused, 0) {
            Some(c) => Some(panes[wrapped(c, delta, panes.len() as int)]@),
            None => None,
        }
    }
}

pub fn relative_pane(panes: &[String], focused: &str, delta: isize) -> (r: Option<String>)
    requires
        panes@.len() <= isize::MAX,
        first_id_from(panes@, focused@, 0) matches Some(c) ==> isize::MIN <= c + delta <= isize::MAX,
    ensures
        opt_string(r) == relative_pane_target(panes@, focused@, delta as int),
{
    if panes.len() < 2 {
        return None;
    }
    match find_id(panes, focused) {
        Some(c) => {
            let next = wrap_index(c, delta, panes.len());
            Some(panes[next].clone())
        },
        None => None,
    }
}

/// A tab of a session, by ids.
#[derive(Clone, Debug, PartialEq, Eq)]
pub struct WindowKey {
    pub session_id: String,
    pub window_id: String,
}

/// The tab a terminal title names: the tab of the pane that set it, or the current tab when no
/// pane is named; never a tab without an id.
pub open spec fn title_target(
    source_pane: Option<Seq<char>>,
    pane_window: Option<WindowKey>,
    current: WindowKey,
) -> Option<WindowKey> {
    let key = if source_pane is Some {
        pane_window
    } else {
        Some(current)
    };
    match key {
        Some(k) => if k.window_id@.len() > 0 {
            Some(k)
        } else {
            None
        },
        None => None,
    }
}

/// The tab a terminal title goes to (see `title_target`); `pane_window` is the tab holding the
/// source pane, when it was found.
pub fn terminal_title_window(
    source_pane: Option<&str>,
    pane_window: Option<WindowKey>,
    current: WindowKey,
) -> (r: Option<WindowKey>)
    ensures
        r == title_target(opt_str(source_pane), pane_window, current),
{
    let key = if source_pane.is_some() {
        pane_window
    } else {
        Some(current)
    };
    match key {
        Some(k) => if k.window_id.unicode_len() > 0 {
            Some(k)
        } else {
            None
        },
        None => None,
    }
}

/// A title renames its tab unless someone named the tab, or the tab already has that name.
pub fn title_renames_tab(custom_name: bool, current_name: Option<&str>, title: &str) -> (r: bool)
    ensures
        r == (!custom_name && opt_str(current_name) != Some(title@)),
{
    if custom_name {
        return false;
    }
    match current_name {
        Some(n) => !str_eq(n, title),
        None => true,
    }
}

/// A title becomes the window's title when no pane set it or the focused pane did.
pub fn title_sets_window_title(source_pane: Option<&str>, focused_pane: Option<&str>) -> (r: bool)
    ensures
        r == (source_pane is None || opt_str(focused_pane) == opt_str(source_pane)),
{
    match source_pane {
        None => true,
        Some(s) => match focused_pane {
            Some(f) => str_eq(f, s),
            None => false,
        },
    }
}

/// The space and binding a session belongs to.
#[derive(Clone, Copy, Debug, PartialEq, Eq, Structural)]
pub struct MuxScope {
    pub space_id: i64,
    pub binding_id: i64,
}

/// A tab, named by its scope, session and id.
#[derive(Clone, Debug, PartialEq, Eq)]
pub struct ScopedWindowId {
    pub scope: MuxScope,
    pub session_id: String,
    pub window_id: String,
}

impl ScopedWindowId {
    pub fn new(scope: MuxScope, session_id: String, window_id: String) -> (r: Self)
        ensures
            r.scope == scope,
            r.session_id == session_id,
            r.window_id == window_id,
    {
        ScopedWindowId { scope, session_id, window_id }
    }
}

/// What a click on a status-bar module asks for.
#[derive(Clone, Debug, PartialEq, Eq)]
pub enum StatusBarAction {
    /// Turn keeping the machine awake on or off.
    ToggleKeepAwake,
    /// Switch the selected session to this tab.
    ActivateWindow(String),
    Ignore,
}

/// Reads a status-bar module's action: `toggle-caffeinate` toggles keeping the machine awake;
/// `activate-window:<id>` switches to that tab when a session is selected; anything else is
/// ignored.
pub fn status_bar_action(action: &str, session_selected: bool) -> (r: StatusBarAction)
    ensures
        action@ == "toggle-caffeinate"@ ==> r == StatusBarAction::ToggleKeepAwake,
        action@ != "toggle-caffeinate"@ ==> match r {
            StatusBarAction::ActivateWindow(id) => session_selected && "activate-window:"@.len()
                <= action@.len() && action@.subrange(0, "activate-window:"@.len() as int)
                == "activate-window:"@ && id@ == action@.skip("activate-window:"@.len() as int),
            StatusBarAction::Ignore => !session_selected || !("activate-window:"@.len()
                <= action@.len() && action@.subrange(0, "activate-window:"@.len() as int)
                == "activate-window:"@),
            StatusBarAction::ToggleKeepAwake => false,
        },
{
    if str_eq(action, "toggle-caffeinate") {
        return StatusBarAction::ToggleKeepAwake;
    }
    match strip_prefix(action, "activate-window:") {
        Some(id) => if session_selected {
            StatusBarAction::ActivateWindow(id)
        } else {
            StatusBarAction::Ignore
        },
        None => StatusBarAction::Ignore,
    }
}

} // verus!
