//! Spaces as the sidebar lists them, and which space a navigation lands on.
use vstd::prelude::*;
use crate::order::{is_stable_order, stable_order, stable_order_of};

verus! {

/// The identity of a space in the workspace store.
#[derive(Clone, Copy, Debug, PartialEq, Eq, Structural)]
pub struct SpaceId(pub i64);

/// What the sidebar shows of a space.
#[derive(Clone, Debug, PartialEq, Eq)]
pub struct SpaceSummary {
    pub id: SpaceId,
    pub name: String,
    pub icon: String,
    pub color: [u8; 3],
    pub tint_sidebar: bool,
    pub active: bool,
}

impl SpaceSummary {
    /// A copy with the same fields.
    pub fn duplicate(&self) -> (r: SpaceSummary)
        ensures
            r == *self,
    {
        SpaceSummary {
            id: self.id,
            name: self.name.clone(),
            icon: self.icon.clone(),
            color: self.color,
            tint_sidebar: self.tint_sidebar,
            active: self.active,
        }
    }
}

/// A space with the position the workspace store keeps it at.
#[derive(Debug)]
pub struct PositionedSpace {
    pub position: i64,
    pub summary: SpaceSummary,
}

pub open spec fn positions_of(spaces: Seq<PositionedSpace>) -> Seq<i64> {
    Seq::new(spaces.len(), |i: int| spaces[i].position)
}

/// The summaries of `spaces` in their stable order by position.
pub open spec fn summaries_in_order(spaces: Seq<PositionedSpace>) -> Seq<SpaceSummary> {
    let order = stable_order_of(positions_of(spaces));
    Seq::new(spaces.len(), |k: int| spaces[order[k] as int].summary)
}

/// The spaces' summaries ordered by position; spaces at the same position keep the order they
/// were given in (the active space first, as the caller lists it).
pub fn space_summaries(spaces: &[PositionedSpace]) -> (out: Vec<SpaceSummary>)
    ensures
        out@ == summaries_in_order(spaces@),
{
    let mut keys: Vec<i64> = Vec::new();
    let mut i: usize = 0;
    while i < spaces.len()
        invariant
            i <= spaces@.len(),
            keys@ == positions_of(spaces@).subrange(0, i as int),
        decreases spaces@.len() - i,
    {
        keys.push(spaces[i].position);
        i = i + 1;
    }
    assert(keys@ == positions_of(spaces@));
    let order = stable_order(keys.as_slice());
    let mut out: Vec<SpaceSummary> = Vec::new();
    let mut k: usize = 0;
    while k < order.len()
        invariant
            keys@ == positions_of(spaces@),
            order@ == stable_order_of(keys@),
            is_stable_order(order@, keys@),
            k <= order@.len(),
            out@.len() == k,
            forall|m: int| 0 <= m < k ==> #[trigger] out@[m] == spaces@[order@[m] as int].summary,
        decreases order@.len() - k,
    {
        let p = order[k];
        assert(p < keys@.len());
        out.push(spaces[p].summary.duplicate());
        k = k + 1;
    }
    assert(out@ =~= summaries_in_order(spaces@));
    out
}

/// The space a `select_space(index)` binding activates: the one at the 1-based `index`.
pub open spec fn indexed_space(spaces: Seq<SpaceSummary>, index: u32) -> Option<SpaceId> {
    if index >= 1 && index - 1 < spaces.len() {
        Some(spaces[index - 1].id)
    } else {
        None
    }
}

pub fn select_space_target(spaces: &[SpaceSummary], index: u32) -> (r: Option<SpaceId>)
    ensures
        r == indexed_space(spaces@, index),
{
    match (index as usize).checked_sub(1) {
        Some(i) => {
            if i < spaces.len() {
                Some(spaces[i].id)
            } else {
                None
            }
        },
        None => None,
    }
}

/// The first place holding the active space.
pub open spec fn first_active_from(spaces: Seq<SpaceSummary>, start: int) -> Option<int>
    decreases spaces.len() - start,
{
    if start < 0 || start >= spaces.len() {
        None
    } else if spaces[start].active {
        Some(start)
    } else {
        first_active_from(spaces, start + 1)
    }
}

/// The space `delta` places from the active one; none past either end of the list.
pub open spec fn relative_space(spaces: Seq<SpaceSummary>, delta: int) -> Option<SpaceId> {
    match first_active_from(spaces, 0) {
        Some(a) => if 0 <= a + delta < spaces.len() {
            Some(spaces[a + delta].id)
        } else {
            None
        },
        None => None,
    }
}

pub fn relative_space_target(spaces: &[SpaceSummary], delta: isize) -> (r: Option<SpaceId>)
    ensures
        r == relative_space(spaces@, delta as int),
{
    let mut a: usize = 0;
    while a < spaces.len() && !spaces[a].active
        invariant
            a <= spaces@.len(),
            first_active_from(spaces@, 0) == first_active_from(spaces@, a as int),
        decreases spaces@.len() - a,
    {
        a = a + 1;
    }
    if a == spaces.len() {
        return None;
    }
    match a.checked_add_signed(delta) {
        Some(t) => {
            if t < spaces.len() {
                Some(spaces[t].id)
            } else {
                None
            }
        },
        None => None,
    }
}

/// What closing a space takes.
#[derive(Clone, Copy, Debug, PartialEq, Eq, Structural)]
pub enum CloseSpacePlan {
    /// The space cannot be closed: it is the last one, or it is not listed.
    Refuse,
    /// Close it; when it is the active space, first activate this neighbour.
    Close { activate_first: Option<SpaceId> },
}

/// The first place holding the space `id`.
pub open spec fn first_space_from(spaces: Seq<SpaceSummary>, id: SpaceId, start: int) -> Option<int>
    decreases spaces.len() - start,
{
    if start < 0 || start >= spaces.len() {
        None
    } else if spaces[start].id == id {
        Some(start)
    } else {
        first_space_from(spaces, id, start + 1)
    }
}

/// Closing a space: never the last one; the active one hands over to the space after it, or
/// the one before it when it is last in the list.
pub open spec fn close_space(spaces: Seq<SpaceSummary>, id: SpaceId, active: SpaceId) -> CloseSpacePlan {
    if spaces.len() <= 1 {
        CloseSpacePlan::Refuse
    } else {
        match first_space_from(spaces, id, 0) {
            None => CloseSpacePlan::Refuse,
            Some(i) => if id != active {
                CloseSpacePlan::Close { activate_first: None }
            } else if i + 1 < spaces.len() {
                CloseSpacePlan::Close { activate_first: Some(spaces[i + 1].id) }
            } else {
                CloseSpacePlan::Close { activate_first: Some(spaces[i - 1].id) }
            },
        }
    }
}

proof fn lemma_first_space_in_range(spaces: Seq<SpaceSummary>, id: SpaceId, start: int)
    ensures
        first_space_from(spaces, id, start) matches Some(i) ==> start <= i < spaces.len(),
    decreases spaces.len() - start,
{
    if start >= 0 && start < spaces.len() && spaces[start].id != id {
        lemma_first_space_in_range(spaces, id, start + 1);
    }
}

pub fn close_space_plan(spaces: &[SpaceSummary], id: SpaceId, active: SpaceId) -> (r: CloseSpacePlan)
    ensures
        r == close_space(spaces@, id, active),
{
    if spaces.len() <= 1 {
        return CloseSpacePlan::Refuse;
    }
    let mut i: usize = 0;
    while i < spaces.len() && spaces[i].id != id
        invariant
            i <= spaces@.len(),
            first_space_from(spaces@, id, 0) == first_space_from(spaces@, id, i as int),
        decreases spaces@.len() - i,
    {
        i = i + 1;
    }
    if i == spaces.len() {
        return CloseSpacePlan::Refuse;
    }
    if id != active {
        return CloseSpacePlan::Close { activate_first: None };
    }
    if i + 1 < spaces.len() {
        CloseSpacePlan::Close { activate_first: Some(spaces[i + 1].id) }
    } else {
        CloseSpacePlan::Close { activate_first: Some(spaces[i - 1].id) }
    }
}

/// A space that closes while active always hands over to another listed space.
pub proof fn lemma_closing_active_space_hands_over(
    spaces: Seq<SpaceSummary>,
    id: SpaceId,
)
    requires
        forall|k: int, l: int| 0 <= k < l < spaces.len() ==> #[trigger] spaces[k].id != #[trigger] spaces[l].id,
    ensures
        close_space(spaces, id, id) matches CloseSpacePlan::Close { activate_first } ==> (
        activate_first matches Some(next) && next != id && exists|k: int|
            0 <= k < spaces.len() && #[trigger] spaces[k].id == next),
{
    lemma_first_space_in_range(spaces, id, 0);
    if spaces.len() > 1 {
        if let Some(i) = first_space_from(spaces, id, 0) {
            lemma_first_space_is_match(spaces, id, 0);
            if i + 1 < spaces.len() {
                assert(spaces[i].id != spaces[i + 1].id);
            } else {
                assert(spaces[i - 1].id != spaces[i].id);
            }
        }
    }
}

proof fn lemma_first_space_is_match(spaces: Seq<SpaceSummary>, id: SpaceId, start: int)
    ensures
        first_space_from(spaces, id, start) matches Some(i) ==> spaces[i].id == id,
    decreases spaces.len() - start,
{
    if start >= 0 && start < spaces.len() && spaces[start].id != id {
        lemma_first_space_is_match(spaces, id, start + 1);
    }
}

} // verus!
