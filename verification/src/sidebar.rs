//! Keyboard navigation of the sidebar: which session the highlight rests on and what the
//! sidebar's keys do.
use vstd::prelude::*;
use crate::text::str_eq;
use crate::toggles::InputFocus;
use crate::windows::MuxScope;
use crate::mux_keys::wrapped;

verus! {

/// A session the sidebar lists, in the binding that shows it.
#[derive(Clone, Debug, PartialEq, Eq)]
pub struct SessionTarget {
    pub scope: MuxScope,
    pub session_id: String,
}

pub open spec fn target_view(t: SessionTarget) -> (MuxScope, Seq<char>) {
    (t.scope, t.session_id@)
}

pub open spec fn opt_target(t: Option<SessionTarget>) -> Option<(MuxScope, Seq<char>)> {
    match t {
        Some(x) => Some(target_view(x)),
        None => None,
    }
}

/// The first place holding the target `t`.
pub open spec fn target_index_from(targets: Seq<SessionTarget>, t: (MuxScope, Seq<char>), start: int) -> Option<
    int,
>
    decreases targets.len() - start,
{
    if start < 0 || start >= targets.len() {
        None
    } else if target_view(targets[start]) == t {
        Some(start)
    } else {
        target_index_from(targets, t, start + 1)
    }
}

proof fn lemma_target_index_in_range(targets: Seq<SessionTarget>, t: (MuxScope, Seq<char>), start: int)
    ensures
        target_index_from(targets, t, start) matches Some(i) ==> start <= i < targets.len(),
    decreases targets.len() - start,
{
    if start >= 0 && start < targets.len() && target_view(targets[start]) != t {
        lemma_target_index_in_range(targets, t, start + 1);
    }
}

fn same_target(a: &SessionTarget, b: &SessionTarget) -> (r: bool)
    ensures
        r == (target_view(*a) == target_view(*b)),
{
    a.scope == b.scope && str_eq(a.session_id.as_str(), b.session_id.as_str())
}

fn target_index(targets: &[SessionTarget], t: &SessionTarget) -> (r: Option<usize>)
    ensures
        match r {
            Some(i) => i < targets@.len() && target_index_from(targets@, target_view(*t), 0) == Some(
                i as int,
            ),
            None => target_index_from(targets@, target_view(*t), 0) is None,
        },
{
    let mut i: usize = 0;
    while i < targets.len()
        invariant
            i <= targets@.len(),
            target_index_from(targets@, target_view(*t), 0) == target_index_from(
                targets@,
                target_view(*t),
                i as int,
            ),
        decreases targets@.len() - i,
    {
        if same_target(&targets[i], t) {
            return Some(i);
        }
        i = i + 1;
    }
    None
}

fn copy_target(t: &SessionTarget) -> (r: SessionTarget)
    ensures
        target_view(r) == target_view(*t),
{
    SessionTarget { scope: t.scope, session_id: t.session_id.clone() }
}

/// The highlighted session: the current one while it is listed, else the selected session's
/// target, else the first listed one.
pub open spec fn hover_target(
    hovered: Option<SessionTarget>,
    targets: Seq<SessionTarget>,
    selected: Option<SessionTarget>,
) -> Option<(MuxScope, Seq<char>)> {
    if hovered matches Some(h) && target_index_from(targets, target_view(h), 0) is Some {
        opt_target(hovered)
    } else if selected is Some {
        opt_target(selected)
    } else if targets.len() > 0 {
        Some(target_view(targets[0]))
    } else {
        None
    }
}

pub fn ensure_hovered(
    hovered: &Option<SessionTarget>,
    targets: &[SessionTarget],
    selected: &Option<SessionTarget>,
) -> (r: Option<SessionTarget>)
    ensures
        opt_target(r) == hover_target(*hovered, targets@, *selected),
{
    match hovered {
        Some(h) => {
            if target_index(targets, h).is_some() {
                return Some(copy_target(h));
            }
        },
        None => {},
    }
    match selected {
        Some(s) => Some(copy_target(s)),
        None => if targets.len() > 0 {
            Some(copy_target(&targets[0]))
        } else {
            None
        },
    }
}

/// Moving the highlight `delta` places round the listed sessions, from where
/// `hover_target` puts it; a highlight that is not listed stays where it is.
pub open spec fn moved_hover(
    hovered: Option<SessionTarget>,
    targets: Seq<SessionTarget>,
    selected: Option<SessionTarget>,
    delta: int,
) -> Option<(MuxScope, Seq<char>)> {
    let h = hover_target(hovered, targets, selected);
    match h {
        Some(t) => match target_index_from(targets, t, 0) {
            Some(i) => Some(target_view(targets[wrapped(i, delta, targets.len() as int)])),
            None => h,
        },
        None => None,
    }
}

pub fn move_hover(
    hovered: &Option<SessionTarget>,
    targets: &[SessionTarget],
    selected: &Option<SessionTarget>,
    delta: isize,
) -> (r: Option<SessionTarget>)
    requires
        targets@.len() <= isize::MAX,
        hover_target(*hovered, targets@, *selected) matches Some(t) ==> (target_index_from(
            targets@,
            t,
            0,
        ) matches Some(i) ==> isize::MIN <= i + delta <= isize::MAX),
    ensures
        opt_target(r) == moved_hover(*hovered, targets@, *selected, delta as int),
{
    let h = ensure_hovered(hovered, targets, selected);
    match &h {
        Some(t) => match target_index(targets, t) {
            Some(i) => {
                let next = crate::mux_keys::wrap_index(i, delta, targets.len());
                Some(copy_target(&targets[next]))
            },
            None => h,
        },
        None => None,
    }
}

/// What a sidebar key binding does.
#[derive(Clone, Copy, Debug, PartialEq, Eq, Structural)]
pub enum SidebarAction {
    Ignore,
    PreviousSession,
    NextSession,
    ActivateSession,
    FocusTerminal,
}

/// The sidebar after a key: the highlight, where input goes, and the session to activate.
pub struct SidebarOutcome {
    pub hovered: Option<SessionTarget>,
    pub focus: InputFocus,
    pub activate: Option<SessionTarget>,
}

/// Applies one sidebar key action. Moving wraps round the list; activating opens the
/// highlighted session and hands input back to the terminal, as does leaving the sidebar.
pub fn apply_sidebar_action(
    action: SidebarAction,
    hovered: &Option<SessionTarget>,
    targets: &[SessionTarget],
    selected: &Option<SessionTarget>,
) -> (r: SidebarOutcome)
    requires
        targets@.len() <= isize::MAX,
    ensures
        match action {
            SidebarAction::Ignore => opt_target(r.hovered) == hover_target(*hovered, targets@, *selected)
                && r.focus == InputFocus::Sidebar && r.activate is None,
            SidebarAction::PreviousSession => opt_target(r.hovered) == moved_hover(
                *hovered,
                targets@,
                *selected,
                -1,
            ) && r.focus == InputFocus::Sidebar && r.activate is None,
            SidebarAction::NextSession => opt_target(r.hovered) == moved_hover(
                *hovered,
                targets@,
                *selected,
                1,
            ) && r.focus == InputFocus::Sidebar && r.activate is None,
            SidebarAction::ActivateSession => opt_target(r.hovered) == hover_target(
                *hovered,
                targets@,
                *selected,
            ) && opt_target(r.activate) == hover_target(*hovered, targets@, *selected) && r.focus
                == InputFocus::Terminal,
            SidebarAction::FocusTerminal => opt_target(r.hovered) == hover_target(
                *hovered,
                targets@,
                *selected,
            ) && r.focus == InputFocus::Terminal && r.activate is None,
        },
{
    proof {
        if let Some(t) = hover_target(*hovered, targets@, *selected) {
            lemma_target_index_in_range(targets@, t, 0);
        }
    }
    match action {
        SidebarAction::PreviousSession => SidebarOutcome {
            hovered: move_hover(hovered, targets, selected, -1),
            focus: InputFocus::Sidebar,
            activate: None,
        },
        SidebarAction::NextSession => SidebarOutcome {
            hovered: move_hover(hovered, targets, selected, 1),
            focus: InputFocus::Sidebar,
            activate: None,
        },
        SidebarAction::ActivateSession => {
            let h = ensure_hovered(hovered, targets, selected);
            let activate = match &h {
                Some(t) => Some(copy_target(t)),
                None => None,
            };
            SidebarOutcome { hovered: h, focus: InputFocus::Terminal, activate }
        },
        SidebarAction::FocusTerminal => SidebarOutcome {
            hovered: ensure_hovered(hovered, targets, selected),
            focus: InputFocus::Terminal,
            activate: None,
        },
        SidebarAction::Ignore => SidebarOutcome {
            hovered: ensure_hovered(hovered, targets, selected),
            focus: InputFocus::Sidebar,
            activate: None,
        },
    }
}

/// Moving a listed highlight lands on a listed session.
pub proof fn lemma_moved_hover_stays_listed(
    hovered: Option<SessionTarget>,
    targets: Seq<SessionTarget>,
    selected: Option<SessionTarget>,
    delta: int,
)
    requires
        hover_target(hovered, targets, selected) matches Some(t) && target_index_from(targets, t, 0) is Some,
    ensures
        moved_hover(hovered, targets, selected, delta) matches Some(m) && target_index_from(
            targets,
            m,
            0,
        ) is Some,
{
    let t = hover_target(hovered, targets, selected)->0;
    let i = target_index_from(targets, t, 0)->0;
    lemma_target_index_in_range(targets, t, 0);
    let n = targets.len() as int;
    let k = wrapped(i, delta, n);
    assert(0 <= k < n) by (nonlinear_arith)
        requires
            n > 0,
            k == (i + delta) % n,
    ;
    lemma_listed_target_found(targets, k, 0);
}

/// A listed target is found by its view.
proof fn lemma_listed_target_found(targets: Seq<SessionTarget>, k: int, start: int)
    requires
        0 <= start <= k < targets.len(),
    ensures
        target_index_from(targets, target_view(targets[k]), start) is Some,
    decreases k - start,
{
    if target_view(targets[start]) != target_view(targets[k]) {
        lemma_listed_target_found(targets, k, start + 1);
    }
}

} // verus!
