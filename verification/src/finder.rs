//! How sessions are grouped for the sidebar and the session finder: the labels of binding
//! groups, and the sessions no space claims.
use vstd::prelude::*;
use crate::text::{push_signed_decimal, push_str, signed_decimal, str_eq};
use crate::mux_keys::SessionRef;
use crate::order::{stable_order, stable_order_of};

verus! {

impl SessionRef {
    /// A copy with the same fields.
    pub fn duplicate(&self) -> (r: SessionRef)
        ensures
            r == *self,
    {
        SessionRef { id: self.id.clone(), name: self.name.clone() }
    }
}

/// Whether a session called `name` is among `sessions`.
pub open spec fn has_name(sessions: Seq<SessionRef>, name: Seq<char>) -> bool {
    exists|k: int| 0 <= k < sessions.len() && #[trigger] sessions[k].name@ == name
}

/// The sessions with the first one of each name kept, in order.
pub open spec fn unique_by_name(sessions: Seq<SessionRef>) -> Seq<SessionRef>
    decreases sessions.len(),
{
    if sessions.len() == 0 {
        sessions
    } else {
        let kept = unique_by_name(sessions.drop_last());
        if has_name(kept, sessions.last().name@) {
            kept
        } else {
            kept.push(sessions.last())
        }
    }
}

fn holds_name(sessions: &[SessionRef], name: &str) -> (r: bool)
    ensures
        r == has_name(sessions@, name@),
{
    let mut k: usize = 0;
    while k < sessions.len()
        invariant
            k <= sessions@.len(),
            forall|m: int| 0 <= m < k ==> #[trigger] sessions@[m].name@ != name@,
        decreases sessions@.len() - k,
    {
        if str_eq(sessions[k].name.as_str(), name) {
            return true;
        }
        k = k + 1;
    }
    false
}

/// One entry per session name, the first seen (see `unique_by_name`).
pub fn sessions_across_spaces(sessions: &[SessionRef]) -> (r: Vec<SessionRef>)
    ensures
        r@ == unique_by_name(sessions@),
{
    let mut out: Vec<SessionRef> = Vec::new();
    let mut i: usize = 0;
    while i < sessions.len()
        invariant
            i <= sessions@.len(),
            out@ == unique_by_name(sessions@.subrange(0, i as int)),
        decreases sessions@.len() - i,
    {
        proof {
            assert(sessions@.subrange(0, i + 1).drop_last() =~= sessions@.subrange(0, i as int));
        }
        if !holds_name(out.as_slice(), sessions[i].name.as_str()) {
            out.push(sessions[i].duplicate());
        }
        i = i + 1;
    }
    assert(sessions@.subrange(0, sessions@.len() as int) =~= sessions@);
    out
}

/// Whether `name` is among the claimed names.
pub open spec fn claimed(names: Seq<String>, name: Seq<char>) -> bool {
    exists|k: int| 0 <= k < names.len() && #[trigger] names[k]@ == name
}

/// The sessions whose names no space claims, in order.
pub open spec fn unclaimed_of(sessions: Seq<SessionRef>, claimed_names: Seq<String>) -> Seq<SessionRef> {
    sessions.filter(|s: SessionRef| !claimed(claimed_names, s.name@))
}

/// The sessions no space claims (see `unclaimed_of`).
pub fn unclaimed_sessions(sessions: &[SessionRef], claimed_names: &[String]) -> (r: Vec<SessionRef>)
    ensures
        r@ == unclaimed_of(sessions@, claimed_names@),
{
    proof {
        reveal_with_fuel(Seq::filter, 1);
    }
    let mut out: Vec<SessionRef> = Vec::new();
    let mut i: usize = 0;
    while i < sessions.len()
        invariant
            i <= sessions@.len(),
            out@ == sessions@.subrange(0, i as int).filter(
                |s: SessionRef| !claimed(claimed_names@, s.name@),
            ),
        decreases sessions@.len() - i,
    {
        let ghost before = sessions@.subrange(0, i as int);
        proof {
            assert(sessions@.subrange(0, i + 1).drop_last() =~= before);
            reveal_with_fuel(Seq::filter, 1);
        }
        let name = sessions[i].name.as_str();
        let mut k: usize = 0;
        let mut found = false;
        while k < claimed_names.len() && !found
            invariant
                k <= claimed_names@.len(),
                name@ == sessions@[i as int].name@,
                found ==> claimed(claimed_names@, name@),
                !found ==> forall|m: int| 0 <= m < k ==> #[trigger] claimed_names@[m]@ != name@,
            decreases claimed_names@.len() - k + if found { 0int } else { 1int },
        {
            if str_eq(claimed_names[k].as_str(), name) {
                found = true;
            } else {
                k = k + 1;
            }
        }
        if !found {
            out.push(sessions[i].duplicate());
        }
        i = i + 1;
    }
    assert(sessions@.subrange(0, sessions@.len() as int) =~= sessions@);
    out
}

/// A binding of the active space: its id and its label.
#[derive(Clone, Debug)]
pub struct BindingLabel {
    pub binding_id: i64,
    pub label: String,
}

/// How many bindings carry the label `label`.
pub open spec fn label_count(bindings: Seq<BindingLabel>, label: Seq<char>, upto: int) -> nat
    decreases upto,
{
    if upto <= 0 {
        0
    } else {
        label_count(bindings, label, upto - 1) + if bindings[upto - 1].label@ == label {
            1nat
        } else {
            0nat
        }
    }
}

/// The label a binding group shows: its own, or, when another binding has the same label,
/// that label with ` / Binding <id>`.
pub open spec fn group_label(bindings: Seq<BindingLabel>, b: BindingLabel) -> Seq<char> {
    if label_count(bindings, b.label@, bindings.len() as int) > 1 {
        b.label@ + " / Binding "@ + signed_decimal(b.binding_id as int)
    } else {
        b.label@
    }
}

pub open spec fn binding_ids(bindings: Seq<BindingLabel>) -> Seq<i64> {
    Seq::new(bindings.len(), |i: int| bindings[i].binding_id)
}

/// The sidebar's binding groups, ordered by binding id: each group's id and label.
pub open spec fn binding_groups(bindings: Seq<BindingLabel>) -> Seq<(i64, Seq<char>)> {
    let order = stable_order_of(binding_ids(bindings));
    Seq::new(
        bindings.len(),
        |k: int| (bindings[order[k] as int].binding_id, group_label(bindings, bindings[order[k] as int])),
    )
}

fn count_label(bindings: &[BindingLabel], label: &str) -> (r: usize)
    ensures
        r == label_count(bindings@, label@, bindings@.len() as int),
{
    let mut c: usize = 0;
    let mut i: usize = 0;
    while i < bindings.len()
        invariant
            i <= bindings@.len(),
            c == label_count(bindings@, label@, i as int),
            c <= i,
        decreases bindings@.len() - i,
    {
        if str_eq(bindings[i].label.as_str(), label) {
            c = c + 1;
        }
        i = i + 1;
    }
    c
}

/// The groups of `binding_groups`, as ids and labels.
pub fn binding_group_labels(bindings: &[BindingLabel]) -> (r: Vec<(i64, String)>)
    ensures
        r@.len() == bindings@.len(),
        forall|k: int|
            0 <= k < r@.len() ==> (#[trigger] r@[k]).0 == binding_groups(bindings@)[k].0 && r@[k].1@
                == binding_groups(bindings@)[k].1,
{
    let mut ids: Vec<i64> = Vec::new();
    let mut i: usize = 0;
    while i < bindings.len()
        invariant
            i <= bindings@.len(),
            ids@ == binding_ids(bindings@).subrange(0, i as int),
        decreases bindings@.len() - i,
    {
        ids.push(bindings[i].binding_id);
        i = i + 1;
    }
    assert(ids@ == binding_ids(bindings@));
    let order = stable_order(ids.as_slice());
    let mut out: Vec<(i64, String)> = Vec::new();
    let mut k: usize = 0;
    while k < order.len()
        invariant
            ids@ == binding_ids(bindings@),
            order@ == stable_order_of(ids@),
            crate::order::is_stable_order(order@, ids@),
            k <= order@.len(),
            out@.len() == k,
            forall|m: int|
                0 <= m < k ==> (#[trigger] out@[m]).0 == binding_groups(bindings@)[m].0 && out@[m].1@
                    == binding_groups(bindings@)[m].1,
        decreases order@.len() - k,
    {
        let b = &bindings[order[k]];
        let label = if count_label(bindings, b.label.as_str()) > 1 {
            let mut s = b.label.clone();
            push_str(&mut s, " / Binding ");
            push_signed_decimal(&mut s, b.binding_id);
            s
        } else {
            b.label.clone()
        };
        out.push((b.binding_id, label));
        k = k + 1;
    }
    out
}

/// The session finder's label for a binding's group: the space's name, with the binding's label
/// after it when the space has more than one binding.
pub open spec fn finder_label(space_name: Seq<char>, binding_label: Seq<char>, binding_count: nat) -> Seq<
    char,
> {
    if binding_count > 1 {
        space_name + " / "@ + binding_label
    } else {
        space_name
    }
}

pub fn finder_group_label(space_name: &str, binding_label: &str, binding_count: usize) -> (r: String)
    ensures
        r@ == finder_label(space_name@, binding_label@, binding_count as nat),
{
    let mut s = String::new();
    push_str(&mut s, space_name);
    if binding_count > 1 {
        push_str(&mut s, " / ");
        push_str(&mut s, binding_label);
    }
    proof {
        if binding_count <= 1 {
            assert(s@ =~= space_name@);
        }
    }
    s
}

/// Unclaimed sessions are exactly the listed sessions that no space claims: none is claimed,
/// and every unclaimed listed session is among them.
pub proof fn lemma_unclaimed_partition(sessions: Seq<SessionRef>, claimed_names: Seq<String>)
    ensures
        forall|k: int|
            0 <= k < unclaimed_of(sessions, claimed_names).len() ==> !claimed(
                claimed_names,
                (#[trigger] unclaimed_of(sessions, claimed_names)[k]).name@,
            ),
        forall|i: int|
            0 <= i < sessions.len() && !claimed(claimed_names, #[trigger] sessions[i].name@)
                ==> unclaimed_of(sessions, claimed_names).contains(sessions[i]),
{
    let pred = |s: SessionRef| !claimed(claimed_names, s.name@);
    assert forall|k: int| 0 <= k < unclaimed_of(sessions, claimed_names).len() implies !claimed(
        claimed_names,
        (#[trigger] unclaimed_of(sessions, claimed_names)[k]).name@,
    ) by {
        sessions.lemma_filter_pred(pred, k);
    }
    assert forall|i: int|
        0 <= i < sessions.len() && !claimed(claimed_names, #[trigger] sessions[i].name@) implies unclaimed_of(
        sessions,
        claimed_names,
    ).contains(sessions[i]) by {
        sessions.lemma_filter_contains(pred, i);
    }
}

/// One entry per name: the kept sessions have pairwise different names, and every listed
/// session's name is among them.
pub proof fn lemma_unique_by_name(sessions: Seq<SessionRef>)
    ensures
        forall|a: int, b: int|
            0 <= a < b < unique_by_name(sessions).len() ==> (#[trigger] unique_by_name(sessions)[a]).name@
                != (#[trigger] unique_by_name(sessions)[b]).name@,
        forall|i: int| 0 <= i < sessions.len() ==> has_name(unique_by_name(sessions), #[trigger] sessions[i].name@),
    decreases sessions.len(),
{
    if sessions.len() > 0 {
        let init = sessions.drop_last();
        lemma_unique_by_name(init);
        let kept = unique_by_name(init);
        let last = sessions.last();
        assert forall|i: int| 0 <= i < sessions.len() implies has_name(
            unique_by_name(sessions),
            #[trigger] sessions[i].name@,
        ) by {
            if i < sessions.len() - 1 {
                assert(init[i] == sessions[i]);
                assert(has_name(kept, init[i].name@));
                let k = choose|k: int| 0 <= k < kept.len() && #[trigger] kept[k].name@ == init[i].name@;
                if !has_name(kept, last.name@) {
                    assert(kept.push(last)[k] == kept[k]);
                }
            } else {
                if !has_name(kept, last.name@) {
                    assert(kept.push(last)[kept.len() as int] == last);
                }
            }
        }
    }
}

} // verus!
