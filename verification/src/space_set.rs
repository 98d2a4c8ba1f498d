//! The spaces of a window: one active, the others. Adding a space or switching to one puts the
//! inactive spaces in order of position (spaces at the same position keeping their order);
//! closing one drops it. No space is lost or duplicated on the way.
use vstd::prelude::*;
use crate::spaces::SpaceId;
use crate::order::{is_stable_order, lists_place, ordered_by_key, stable_order, stable_order_of};

verus! {

/// A space with its position and whatever runs for it.
pub struct SpaceEntry<R> {
    pub id: SpaceId,
    pub position: i64,
    pub runtime: R,
}

/// The active space and the inactive ones.
pub struct SpaceSet<R> {
    pub active: SpaceEntry<R>,
    pub inactive: Vec<SpaceEntry<R>>,
}

/// Entries in order of position.
pub open spec fn by_position<R>(s: Seq<SpaceEntry<R>>) -> bool {
    forall|k: int, l: int| 0 <= k < l < s.len() ==> (#[trigger] s[k]).position <= (#[trigger] s[l]).position
}

pub open spec fn positions_in<R>(s: Seq<SpaceEntry<R>>) -> Seq<i64> {
    Seq::new(s.len(), |i: int| s[i].position)
}

/// The entries stably sorted by position.
pub open spec fn sorted_entries<R>(s: Seq<SpaceEntry<R>>) -> Seq<SpaceEntry<R>> {
    Seq::new(s.len(), |k: int| s[stable_order_of(positions_in(s))[k] as int])
}

/// The first entry with the id `id`.
pub open spec fn first_with_id<R>(s: Seq<SpaceEntry<R>>, id: SpaceId, start: int) -> Option<int>
    decreases s.len() - start,
{
    if start < 0 || start >= s.len() {
        None
    } else if s[start].id == id {
        Some(start)
    } else {
        first_with_id(s, id, start + 1)
    }
}

proof fn lemma_first_with_id_found<R>(s: Seq<SpaceEntry<R>>, id: SpaceId, start: int)
    requires
        0 <= start,
    ensures
        first_with_id(s, id, start) matches Some(i) ==> start <= i < s.len() && s[i].id == id,
    decreases s.len() - start,
{
    if start < s.len() && s[start].id != id {
        lemma_first_with_id_found(s, id, start + 1);
    }
}

/// The entries stably sorted by position (see `sorted_entries`).
pub fn sort_by_position<R>(v: Vec<SpaceEntry<R>>) -> (r: Vec<SpaceEntry<R>>)
    ensures
        r@ == sorted_entries(v@),
{
    let ghost all = v@;
    let n = v.len();
    let mut keys: Vec<i64> = Vec::new();
    let mut slots: Vec<Option<SpaceEntry<R>>> = Vec::new();
    let mut rest = v;
    let ghost mut i: int = 0;
    while rest.len() > 0
        invariant
            0 <= i,
            n == all.len(),
            all.len() == i + rest@.len(),
            rest@ == all.subrange(i, all.len() as int),
            keys@ == positions_in(all).subrange(0, i),
            slots@.len() == i,
            forall|q: int| 0 <= q < i ==> #[trigger] slots@[q] == Some(all[q]),
        decreases rest@.len(),
    {
        let e = rest.remove(0);
        proof {
            assert(e == all[i]);
        }
        keys.push(e.position);
        slots.push(Some(e));
        proof {
            assert(keys@ =~= positions_in(all).subrange(0, i + 1));
            i = i + 1;
        }
    }
    assert(keys@ == positions_in(all));
    let order = stable_order(keys.as_slice());
    proof {
        crate::order::lemma_stable_order_is_permutation(order@, keys@);
    }
    let mut out: Vec<SpaceEntry<R>> = Vec::new();
    let mut k: usize = 0;
    while k < n
        invariant
            n == all.len(),
            keys@ == positions_in(all),
            order@ == stable_order_of(keys@),
            is_stable_order(order@, keys@),
            forall|a: int, b: int| 0 <= a < b < order@.len() ==> #[trigger] order@[a] != #[trigger] order@[b],
            slots@.len() == n,
            k <= n,
            out@.len() == k,
            forall|m: int| 0 <= m < k ==> #[trigger] out@[m] == all[order@[m] as int],
            forall|q: int|
                0 <= q < n && (forall|m: int| 0 <= m < k ==> #[trigger] order@[m] != q) ==> #[trigger] slots@[q]
                    == Some(all[q]),
        decreases n - k,
    {
        let p = order[k];
        proof {
            assert forall|m: int| 0 <= m < k implies #[trigger] order@[m] != p by {
                assert(order@[m] != order@[k as int]);
            }
        }
        let taken = slots.remove(p);
        slots.insert(p, None);
        proof {
            assert forall|q: int|
                0 <= q < n && (forall|m: int| 0 <= m < k + 1 ==> #[trigger] order@[m] != q) implies #[trigger] slots@[q]
                == Some(all[q]) by {
                assert(order@[k as int] != q);
                assert(forall|m: int| 0 <= m < k ==> #[trigger] order@[m] != q);
            }
        }
        match taken {
            Some(e) => {
                out.push(e);
            },
            None => {},
        }
        k = k + 1;
    }
    assert(out@ =~= sorted_entries(all));
    out
}

/// The sorted entries are the same entries, in order of position: as many, and each entry
/// somewhere among them.
pub proof fn lemma_sorted_entries_keep_entries<R>(s: Seq<SpaceEntry<R>>)
    requires
        exists|o: Seq<usize>| is_stable_order(o, positions_in(s)),
    ensures
        sorted_entries(s).len() == s.len(),
        by_position(sorted_entries(s)),
        forall|p: int| 0 <= p < s.len() ==> #[trigger] sorted_entries(s).contains(s[p]),
{
    let keys = positions_in(s);
    let o = stable_order_of(keys);
    assert(is_stable_order(o, keys));
    crate::order::lemma_stable_order_is_permutation(o, keys);
    let t = sorted_entries(s);
    assert forall|k: int, l: int| 0 <= k < l < t.len() implies (#[trigger] t[k]).position <= (
    #[trigger] t[l]).position by {
        assert(crate::order::key_before(keys, o[k] as int, o[l] as int));
    }
    assert forall|p: int| 0 <= p < s.len() implies #[trigger] t.contains(s[p]) by {
        assert(lists_place(o, p));
        let k = choose|k: int| 0 <= k < o.len() && #[trigger] o[k] == p;
        assert(t[k] == s[p]);
    }
}

impl<R> SpaceSet<R> {
    /// Every entry, the active one first.
    pub open spec fn entries(self) -> Seq<SpaceEntry<R>> {
        seq![self.active] + self.inactive@
    }

    /// The spaces a window opens with: the one with the selected id is active (the first space
    /// when none is selected or the selected one is gone), the others stay inactive in their
    /// order; with no spaces at all, `default` is the only one.
    pub fn open_at(spaces: Vec<SpaceEntry<R>>, selected: Option<SpaceId>, default: SpaceEntry<R>) -> (r: Self)
        ensures
            spaces@.len() == 0 ==> r.active == default && r.inactive@.len() == 0,
            spaces@.len() > 0 ==> {
                let i = match selected {
                    Some(id) => match first_with_id(spaces@, id, 0) {
                        Some(k) => k,
                        None => 0,
                    },
                    None => 0,
                };
                &&& r.active == spaces@[i]
                &&& r.inactive@ == spaces@.remove(i)
            },
    {
        let mut spaces = spaces;
        if spaces.len() == 0 {
            return SpaceSet { active: default, inactive: spaces };
        }
        let mut i: usize = 0;
        match selected {
            Some(id) => {
                while i < spaces.len() && spaces[i].id != id
                    invariant
                        i <= spaces@.len(),
                        first_with_id(spaces@, id, 0) == first_with_id(spaces@, id, i as int),
                    decreases spaces@.len() - i,
                {
                    i = i + 1;
                }
                if i == spaces.len() {
                    i = 0;
                }
            },
            None => {},
        }
        let active = spaces.remove(i);
        SpaceSet { active, inactive: spaces }
    }

    /// Adds a space to the inactive ones, which then stand in order of position, the new one
    /// after those at its position.
    pub fn add_inactive(&mut self, entry: SpaceEntry<R>)
        ensures
            final(self).active == old(self).active,
            final(self).inactive@ == sorted_entries(old(self).inactive@.push(entry)),
    {
        let mut all: Vec<SpaceEntry<R>> = Vec::new();
        std::mem::swap(&mut all, &mut self.inactive);
        all.push(entry);
        self.inactive = sort_by_position(all);
    }

    /// Makes the first inactive space with the id `id` the active one; the previously active
    /// space joins the inactive ones, which then stand in order of position. Nothing changes
    /// when `id` is already active or not known.
    pub fn activate(&mut self, id: SpaceId) -> (r: bool)
        ensures
            r == (id != old(self).active.id && first_with_id(old(self).inactive@, id, 0) is Some),
            !r ==> *final(self) == *old(self),
            r ==> {
                let i = first_with_id(old(self).inactive@, id, 0)->0;
                &&& final(self).active == old(self).inactive@[i]
                &&& final(self).inactive@ == sorted_entries(
                    old(self).inactive@.remove(i).push(old(self).active),
                )
            },
    {
        if id == self.active.id {
            return false;
        }
        let mut i: usize = 0;
        while i < self.inactive.len() && self.inactive[i].id != id
            invariant
                self.inactive@ == old(self).inactive@,
                self.active == old(self).active,
                i <= self.inactive@.len(),
                first_with_id(self.inactive@, id, 0) == first_with_id(self.inactive@, id, i as int),
            decreases self.inactive@.len() - i,
        {
            i = i + 1;
        }
        if i == self.inactive.len() {
            return false;
        }
        let mut previous = self.inactive.remove(i);
        std::mem::swap(&mut previous, &mut self.active);
        self.add_inactive(previous);
        true
    }

    /// Drops the inactive spaces with the id `id` (a space that was closed), keeping the
    /// others in their order.
    pub fn drop_inactive(&mut self, id: SpaceId)
        ensures
            final(self).active == old(self).active,
            final(self).inactive@ == old(self).inactive@.filter(|e: SpaceEntry<R>| e.id != id),
    {
        proof {
            reveal_with_fuel(Seq::filter, 1);
        }
        let ghost all = self.inactive@;
        let mut kept: Vec<SpaceEntry<R>> = Vec::new();
        let mut rest: Vec<SpaceEntry<R>> = Vec::new();
        std::mem::swap(&mut rest, &mut self.inactive);
        let ghost mut i: int = 0;
        while rest.len() > 0
            invariant
                self.active == old(self).active,
                all == old(self).inactive@,
                0 <= i,
                all.len() == i + rest@.len(),
                rest@ == all.subrange(i, all.len() as int),
                kept@ == all.subrange(0, i).filter(|e: SpaceEntry<R>| e.id != id),
            decreases rest@.len(),
        {
            let e = rest.remove(0);
            proof {
                assert(e == all[i]);
                assert(all.subrange(0, i + 1).drop_last() =~= all.subrange(0, i));
                reveal_with_fuel(Seq::filter, 1);
            }
            if e.id != id {
                kept.push(e);
            }
            proof {
                i = i + 1;
            }
        }
        proof {
            assert(all.subrange(0, all.len() as int) =~= all);
        }
        self.inactive = kept;
    }
}

/// Switching spaces neither loses nor duplicates one: the chosen space becomes active, the
/// previously active one and every other inactive space are among the inactive ones after,
/// in order of position, and the window holds as many spaces as before.
pub proof fn lemma_switch_keeps_spaces<R>(before: SpaceSet<R>, after: SpaceSet<R>, id: SpaceId)
    requires
        first_with_id(before.inactive@, id, 0) is Some,
        after.active == before.inactive@[first_with_id(before.inactive@, id, 0)->0],
        after.inactive@ == sorted_entries(
            before.inactive@.remove(first_with_id(before.inactive@, id, 0)->0).push(before.active),
        ),
        exists|o: Seq<usize>|
            is_stable_order(
                o,
                positions_in(
                    before.inactive@.remove(first_with_id(before.inactive@, id, 0)->0).push(
                        before.active,
                    ),
                ),
            ),
    ensures
        after.active.id == id,
        after.inactive@.contains(before.active),
        forall|k: int|
            0 <= k < before.inactive@.len() && k != first_with_id(before.inactive@, id, 0)->0
                ==> after.inactive@.contains(#[trigger] before.inactive@[k]),
        by_position(after.inactive@),
        after.entries().len() == before.entries().len(),
{
    let i = first_with_id(before.inactive@, id, 0)->0;
    lemma_first_with_id_found(before.inactive@, id, 0);
    let s = before.inactive@.remove(i).push(before.active);
    lemma_sorted_entries_keep_entries(s);
    assert(s[s.len() - 1] == before.active);
    assert forall|k: int|
        0 <= k < before.inactive@.len() && k != i implies after.inactive@.contains(
        #[trigger] before.inactive@[k],
    ) by {
        let p = if k < i { k } else { k - 1 };
        assert(s[p] == before.inactive@[k]);
    }
}

} // verus!
