//! Directions of the split-pane layout and how focus survives a layout reconcile.
use vstd::prelude::*;
use crate::text::str_eq;

verus! {

/// A direction in the multiplexer's own vocabulary.
#[derive(Clone, Copy, Debug, PartialEq, Eq, Structural)]
pub enum MuxDirection {
    Left,
    Right,
    Up,
    Down,
}

/// A direction in the split-pane layout.
#[derive(Clone, Copy, Debug, PartialEq, Eq, Structural)]
pub enum Direction {
    Left,
    Right,
    Up,
    Down,
}

/// Where a new split opens, as the layout names it.
#[derive(Clone, Copy, Debug, PartialEq, Eq, Structural)]
pub enum SplitDirection {
    Right,
    Down,
}

/// Where a new split opens, as the multiplexer names it.
#[derive(Clone, Copy, Debug, PartialEq, Eq, Structural)]
pub enum MuxSplitDirection {
    Right,
    Down,
}

pub open spec fn layout_direction_of(d: MuxDirection) -> Direction {
    match d {
        MuxDirection::Left => Direction::Left,
        MuxDirection::Right => Direction::Right,
        MuxDirection::Up => Direction::Up,
        MuxDirection::Down => Direction::Down,
    }
}

/// The layout direction that a multiplexer direction names.
pub fn layout_direction(direction: MuxDirection) -> (r: Direction)
    ensures
        r == layout_direction_of(direction),
{
    match direction {
        MuxDirection::Left => Direction::Left,
        MuxDirection::Right => Direction::Right,
        MuxDirection::Up => Direction::Up,
        MuxDirection::Down => Direction::Down,
    }
}

/// The step a multiplexer direction takes on screen, as (columns, rows); rows grow downward.
pub open spec fn mux_direction_step(d: MuxDirection) -> (int, int) {
    match d {
        MuxDirection::Left => (-1, 0),
        MuxDirection::Right => (1, 0),
        MuxDirection::Up => (0, -1),
        MuxDirection::Down => (0, 1),
    }
}

/// The step a layout direction takes on screen, as (columns, rows); rows grow downward.
pub open spec fn layout_direction_step(d: Direction) -> (int, int) {
    match d {
        Direction::Left => (-1, 0),
        Direction::Right => (1, 0),
        Direction::Up => (0, -1),
        Direction::Down => (0, 1),
    }
}

/// Translating a multiplexer direction for the layout keeps where it points on screen, so
/// different directions stay different.
pub proof fn lemma_layout_direction_points_the_same_way(a: MuxDirection, b: MuxDirection)
    ensures
        layout_direction_step(layout_direction_of(a)) == mux_direction_step(a),
        a != b ==> layout_direction_of(a) != layout_direction_of(b),
{
}

/// The multiplexer's name for a layout split direction.
pub fn mux_split_direction(direction: SplitDirection) -> (r: MuxSplitDirection)
    ensures
        direction == SplitDirection::Right ==> r == MuxSplitDirection::Right,
        direction == SplitDirection::Down ==> r == MuxSplitDirection::Down,
{
    match direction {
        SplitDirection::Right => MuxSplitDirection::Right,
        SplitDirection::Down => MuxSplitDirection::Down,
    }
}

/// Whether `id` is the id of one of `panes`.
pub open spec fn holds_pane(panes: Seq<String>, id: Seq<char>) -> bool {
    exists|j: int| 0 <= j < panes.len() && #[trigger] panes[j]@ == id
}

/// Two pane lists match when they are as long and every pane of the first is in the second.
pub open spec fn pane_lists_match(a: Seq<String>, b: Seq<String>) -> bool {
    &&& a.len() == b.len()
    &&& forall|i: int| 0 <= i < a.len() ==> holds_pane(b, #[trigger] a[i]@)
}

/// Whether `panes` holds a pane with the id `id`.
pub fn contains_pane(panes: &[String], id: &str) -> (r: bool)
    ensures
        r == holds_pane(panes@, id@),
{
    let mut j: usize = 0;
    while j < panes.len()
        invariant
            j <= panes@.len(),
            forall|k: int| 0 <= k < j ==> panes@[k]@ != id@,
        decreases panes@.len() - j,
    {
        if str_eq(panes[j].as_str(), id) {
            return true;
        }
        j = j + 1;
    }
    proof {
        assert forall|k: int| 0 <= k < panes@.len() implies #[trigger] panes@[k]@ != id@ by {}
    }
    false
}

/// Whether the two pane lists hold the same panes: as long, and each pane of `a` found in `b`.
pub fn pane_sets_match(a: &[String], b: &[String]) -> (r: bool)
    ensures
        r == pane_lists_match(a@, b@),
{
    if a.len() != b.len() {
        return false;
    }
    let mut i: usize = 0;
    while i < a.len()
        invariant
            a@.len() == b@.len(),
            i <= a@.len(),
            forall|k: int| 0 <= k < i ==> holds_pane(b@, #[trigger] a@[k]@),
        decreases a@.len() - i,
    {
        if !contains_pane(b, a[i].as_str()) {
            return false;
        }
        i = i + 1;
    }
    true
}

/// The pane that should hold focus after the split layout was rebuilt: the server's pane when the
/// layout was restored from the server, else the selected pane while it still exists, else the
/// first new pane.
pub open spec fn reconcile_focus(
    restored_from_server: bool,
    new_panes: Seq<String>,
    selected: Option<Seq<char>>,
) -> Option<Seq<char>> {
    if restored_from_server {
        selected
    } else if selected is Some && holds_pane(new_panes, selected->0) {
        selected
    } else if new_panes.len() > 0 {
        Some(new_panes[0]@)
    } else {
        None
    }
}

pub open spec fn opt_str(s: Option<&str>) -> Option<Seq<char>> {
    match s {
        Some(t) => Some(t@),
        None => None,
    }
}

pub open spec fn opt_string(s: Option<String>) -> Option<Seq<char>> {
    match s {
        Some(t) => Some(t@),
        None => None,
    }
}

/// Chooses the focused pane after a native layout reconcile (see `reconcile_focus`).
pub fn focus_after_native_layout_reconcile(
    restored_from_server: bool,
    new_panes: &[String],
    selected_pane: Option<&str>,
) -> (r: Option<String>)
    ensures
        opt_string(r) == reconcile_focus(restored_from_server, new_panes@, opt_str(selected_pane)),
{
    if restored_from_server {
        return match selected_pane {
            Some(s) => Some(s.to_owned()),
            None => None,
        };
    }
    if let Some(s) = selected_pane {
        if contains_pane(new_panes, s) {
            return Some(s.to_owned());
        }
    }
    if new_panes.len() > 0 {
        Some(new_panes[0].clone())
    } else {
        None
    }
}

/// After a reconcile that was not restored from the server, focus rests on a pane of the new
/// layout, or nowhere when the layout has none.
pub proof fn lemma_reconcile_focus_in_layout(new_panes: Seq<String>, selected: Option<Seq<char>>)
    ensures
        reconcile_focus(false, new_panes, selected) matches Some(id) ==> holds_pane(new_panes, id),
        reconcile_focus(false, new_panes, selected) is None <==> new_panes.len() == 0,
{
    if !(selected is Some && holds_pane(new_panes, selected->0)) && new_panes.len() > 0 {
        assert(new_panes[0]@ == new_panes[0]@);
    }
    if selected is Some && holds_pane(new_panes, selected->0) {
        let j = choose|j: int| 0 <= j < new_panes.len() && #[trigger] new_panes[j]@ == selected->0;
        assert(new_panes.len() > 0) by {
            assert(0 <= j < new_panes.len());
        }
    }
}

/// The panes of `a` that are not in `b`, in order.
pub open spec fn panes_missing_from(a: Seq<String>, b: Seq<String>) -> Seq<String> {
    a.filter(|p: String| !holds_pane(b, p@))
}

pub fn panes_not_in(a: &[String], b: &[String]) -> (r: Vec<String>)
    ensures
        r@ == panes_missing_from(a@, b@),
{
    proof {
        reveal_with_fuel(Seq::filter, 1);
    }
    let mut out: Vec<String> = Vec::new();
    let mut i: usize = 0;
    while i < a.len()
        invariant
            i <= a@.len(),
            out@ == panes_missing_from(a@.subrange(0, i as int), b@),
        decreases a@.len() - i,
    {
        proof {
            assert(a@.subrange(0, i + 1).drop_last() =~= a@.subrange(0, i as int));
            reveal_with_fuel(Seq::filter, 1);
        }
        if !contains_pane(b, a[i].as_str()) {
            out.push(a[i].clone());
        }
        i = i + 1;
    }
    assert(a@.subrange(0, a@.len() as int) =~= a@);
    out
}

/// Whether none of `layout`'s panes is among `panes`: the layout belongs to a window whose id
/// was reused.
pub open spec fn layout_stale(layout: Seq<String>, panes: Seq<String>) -> bool {
    forall|k: int| 0 <= k < layout.len() ==> !holds_pane(panes, #[trigger] layout[k]@)
}

fn all_missing(layout: &[String], panes: &[String]) -> (r: bool)
    ensures
        r == layout_stale(layout@, panes@),
{
    let mut k: usize = 0;
    while k < layout.len()
        invariant
            k <= layout@.len(),
            forall|m: int| 0 <= m < k ==> !holds_pane(panes@, #[trigger] layout@[m]@),
        decreases layout@.len() - k,
    {
        if contains_pane(panes, layout[k].as_str()) {
            return false;
        }
        k = k + 1;
    }
    true
}

/// Where the window's split layout starts from before it is reconciled.
#[derive(Clone, Copy, Debug, PartialEq, Eq, Structural)]
pub enum LayoutBase {
    /// The layout cached for the window.
    Cached,
    /// The server's layout, restored because the cache had none or a stale one.
    Server,
    /// A fresh layout holding only the window's first pane.
    Fresh,
}

/// What happens to the layout once the pane set is compared.
#[derive(Clone, Copy, Debug, PartialEq, Eq, Structural)]
pub enum LayoutUpdate {
    /// The pane set did not change.
    Keep,
    /// The pane set changed and the server's layout matches it: take that.
    UseServer,
    /// The pane set changed: split new panes in (in the pending split direction) and drop the
    /// removed ones.
    Reconcile,
}

/// How a native window's split layout follows the panes the backend reports.
#[derive(Clone, Debug)]
pub struct NativeLayoutPlan {
    pub base: LayoutBase,
    pub new_panes: Vec<String>,
    pub removed_panes: Vec<String>,
    pub update: LayoutUpdate,
    pub restored_from_server: bool,
    pub focus: Option<String>,
}

/// The server layout, when it holds exactly the reported panes.
pub open spec fn usable_server(server: Option<Vec<String>>, panes: Seq<String>) -> Option<Seq<String>> {
    match server {
        Some(l) => if pane_lists_match(l@, panes) {
            Some(l@)
        } else {
            None
        },
        None => None,
    }
}

/// The plan for a window with the reported `panes`, its cached layout's panes,
/// the server's layout panes, and the backend's selected pane.
pub open spec fn native_layout_plan_for(
    panes: Seq<String>,
    cached: Option<Vec<String>>,
    server: Option<Vec<String>>,
    selected: Option<Seq<char>>,
    p: NativeLayoutPlan,
) -> bool {
    let srv = usable_server(server, panes);
    let missing = cached is None;
    let stale = cached matches Some(c) && layout_stale(c@, panes);
    let restore_first = (missing || stale) && srv is Some;
    let previous: Seq<String> = if restore_first {
        srv->0
    } else {
        match cached {
            Some(c) => c@,
            None => Seq::empty(),
        }
    };
    let base = if restore_first {
        LayoutBase::Server
    } else if missing || stale {
        LayoutBase::Fresh
    } else {
        LayoutBase::Cached
    };
    let new_panes = panes_missing_from(panes, previous);
    let removed = panes_missing_from(previous, panes);
    let changed = new_panes.len() > 0 || removed.len() > 0;
    let update = if !changed {
        LayoutUpdate::Keep
    } else if srv is Some {
        LayoutUpdate::UseServer
    } else {
        LayoutUpdate::Reconcile
    };
    let restored = restore_first || update == LayoutUpdate::UseServer;
    &&& p.base == base
    &&& p.new_panes@ == new_panes
    &&& p.removed_panes@ == removed
    &&& p.update == update
    &&& p.restored_from_server == restored
    &&& opt_string(p.focus) == reconcile_focus(restored, new_panes, selected)
}

/// Plans the native layout reconcile for one window (see `native_layout_plan_for`); a window
/// without panes (every tab closed) has nothing to lay out.
pub fn native_layout_plan(
    panes: &[String],
    cached: Option<Vec<String>>,
    server: Option<Vec<String>>,
    selected_pane: Option<&str>,
) -> (p: Option<NativeLayoutPlan>)
    ensures
        panes@.len() == 0 <==> p is None,
        p matches Some(plan) ==> native_layout_plan_for(panes@, cached, server, opt_str(selected_pane), plan),
{
    if panes.len() == 0 {
        return None;
    }
    let srv: Option<Vec<String>> = match server {
        Some(l) => if pane_sets_match(l.as_slice(), panes) {
            Some(l)
        } else {
            None
        },
        None => None,
    };
    let missing = cached.is_none();
    let stale = match &cached {
        Some(c) => all_missing(c.as_slice(), panes),
        None => false,
    };
    let restore_first = (missing || stale) && srv.is_some();
    let previous: Vec<String> = if restore_first {
        match &srv {
            Some(l) => l.clone(),
            None => Vec::new(),
        }
    } else {
        match cached {
            Some(c) => c,
            None => Vec::new(),
        }
    };
    let base = if restore_first {
        LayoutBase::Server
    } else if missing || stale {
        LayoutBase::Fresh
    } else {
        LayoutBase::Cached
    };
    let new_panes = panes_not_in(panes, previous.as_slice());
    let removed = panes_not_in(previous.as_slice(), panes);
    let changed = new_panes.len() > 0 || removed.len() > 0;
    let update = if !changed {
        LayoutUpdate::Keep
    } else if srv.is_some() {
        LayoutUpdate::UseServer
    } else {
        LayoutUpdate::Reconcile
    };
    let restored = restore_first || update == LayoutUpdate::UseServer;
    let focus = focus_after_native_layout_reconcile(restored, new_panes.as_slice(), selected_pane);
    Some(
        NativeLayoutPlan {
            base,
            new_panes,
            removed_panes: removed,
            update,
            restored_from_server: restored,
            focus,
        },
    )
}

/// Unless the server's layout was taken, focus after a reconcile rests on one of the panes the
/// backend reports; and a layout with new panes always gets a focus.
pub proof fn lemma_plan_focuses_a_reported_pane(
    panes: Seq<String>,
    cached: Option<Vec<String>>,
    server: Option<Vec<String>>,
    selected: Option<Seq<char>>,
    p: NativeLayoutPlan,
)
    requires
        native_layout_plan_for(panes, cached, server, selected, p),
        !p.restored_from_server,
    ensures
        p.focus matches Some(f) ==> holds_pane(panes, f@),
        p.new_panes@.len() > 0 ==> p.focus is Some,
{
    let new_panes = p.new_panes@;
    lemma_reconcile_focus_in_layout(new_panes, selected);
    if let Some(f) = p.focus {
        assert(holds_pane(new_panes, f@));
        let j = choose|j: int| 0 <= j < new_panes.len() && #[trigger] new_panes[j]@ == f@;
        let previous: Seq<String> = match cached {
            Some(c) => c@,
            None => Seq::empty(),
        };
        let pred = |q: String| !holds_pane(previous, q@);
        assert(new_panes == panes.filter(pred));
        assert(panes.filter(pred).contains(new_panes[j]));
        panes.lemma_filter_contains_rev(pred, new_panes[j]);
        let k = choose|k: int| 0 <= k < panes.len() && panes[k] == new_panes[j];
        assert(panes[k]@ == f@);
    }
}

} // verus!
