//! Reconciling the session names Bootty generates from a session's directory with the names the
//! backend reports: which generated names still wait for the backend, and what to do with each
//! session.
use vstd::prelude::*;
use crate::text::str_eq;

verus! {

/// A session as the reconciler sees it: the directory root it was opened in, when it has one.
#[derive(Clone, Debug)]
pub struct NamedSession {
    pub id: String,
    pub name: String,
    pub root: Option<String>,
}

/// A name Bootty asked the backend for and has not seen reported yet.
#[derive(Clone, Debug)]
pub struct PendingName {
    pub session_id: String,
    pub cwd: String,
    /// The name asked of the backend, unique across the server.
    pub name: String,
    /// What Bootty calls the session, without any uniqueness suffix.
    pub display_name: String,
}

impl PendingName {
    /// A copy with the same fields.
    pub fn duplicate(&self) -> (r: PendingName)
        ensures
            r == *self,
    {
        PendingName {
            session_id: self.session_id.clone(),
            cwd: self.cwd.clone(),
            name: self.name.clone(),
            display_name: self.display_name.clone(),
        }
    }
}

/// Whether some session is already called `name`.
pub open spec fn name_reported(sessions: Seq<NamedSession>, name: Seq<char>) -> bool {
    exists|k: int| 0 <= k < sessions.len() && #[trigger] sessions[k].name@ == name
}

/// The first session with the id `id`.
pub open spec fn session_with_id(sessions: Seq<NamedSession>, id: Seq<char>, start: int) -> Option<int>
    decreases sessions.len() - start,
{
    if start < 0 || start >= sessions.len() {
        None
    } else if sessions[start].id@ == id {
        Some(start)
    } else {
        session_with_id(sessions, id, start + 1)
    }
}

/// A pending name stays while the backend reports no session by that name, and its session is
/// either gone or still rooted where the name was generated for.
pub open spec fn pending_still_needed(pending: PendingName, sessions: Seq<NamedSession>) -> bool {
    if name_reported(sessions, pending.name@) {
        false
    } else {
        match session_with_id(sessions, pending.session_id@, 0) {
            None => true,
            Some(k) => match sessions[k].root {
                Some(root) => root@ == pending.cwd@,
                None => false,
            },
        }
    }
}

pub fn keep_pending_name(pending: &PendingName, sessions: &[NamedSession]) -> (r: bool)
    ensures
        r == pending_still_needed(*pending, sessions@),
{
    let mut k: usize = 0;
    while k < sessions.len()
        invariant
            k <= sessions@.len(),
            forall|m: int| 0 <= m < k ==> #[trigger] sessions@[m].name@ != pending.name@,
        decreases sessions@.len() - k,
    {
        if str_eq(sessions[k].name.as_str(), pending.name.as_str()) {
            return false;
        }
        k = k + 1;
    }
    assert(!name_reported(sessions@, pending.name@));
    let mut j: usize = 0;
    while j < sessions.len() && !str_eq(sessions[j].id.as_str(), pending.session_id.as_str())
        invariant
            j <= sessions@.len(),
            session_with_id(sessions@, pending.session_id@, 0) == session_with_id(
                sessions@,
                pending.session_id@,
                j as int,
            ),
        decreases sessions@.len() - j,
    {
        j = j + 1;
    }
    if j == sessions.len() {
        return true;
    }
    match &sessions[j].root {
        Some(root) => str_eq(root.as_str(), pending.cwd.as_str()),
        None => false,
    }
}

/// The pending names that are still needed, in their order.
pub fn prune_pending_names(pending: Vec<PendingName>, sessions: &[NamedSession]) -> (r: Vec<
    PendingName,
>)
    ensures
        r@ == pending@.filter(|p: PendingName| pending_still_needed(p, sessions@)),
        pending_ids_distinct(pending@) ==> pending_ids_distinct(r@),
{
    proof {
        reveal_with_fuel(Seq::filter, 1);
    }
    let ghost needed = |p: PendingName| pending_still_needed(p, sessions@);
    let mut out: Vec<PendingName> = Vec::new();
    let mut i: usize = 0;
    while i < pending.len()
        invariant
            i <= pending@.len(),
            needed == (|p: PendingName| pending_still_needed(p, sessions@)),
            out@ == pending@.subrange(0, i as int).filter(needed),
        decreases pending@.len() - i,
    {
        let ghost before = pending@.subrange(0, i as int);
        assert(pending@.subrange(0, i + 1) == before.push(pending@[i as int]));
        if keep_pending_name(&pending[i], sessions) {
            out.push(pending[i].duplicate());
        }
        proof {
            let next = pending@.subrange(0, i + 1);
            assert(next.drop_last() =~= before);
            reveal_with_fuel(Seq::filter, 1);
        }
        i = i + 1;
    }
    assert(pending@.subrange(0, pending@.len() as int) == pending@);
    proof {
        if pending_ids_distinct(pending@) {
            lemma_filter_keeps_pending_ids_distinct(pending@, needed);
        }
    }
    out
}

/// No session has two pending names: the pending names are a map from session id.
pub open spec fn pending_ids_distinct(pending: Seq<PendingName>) -> bool {
    forall|i: int, j: int|
        0 <= i < j < pending.len() ==> #[trigger] pending[i].session_id@ != #[trigger] pending[j].session_id@
}

/// Keeping only some of the pending names keeps their session ids distinct.
pub proof fn lemma_filter_keeps_pending_ids_distinct(
    pending: Seq<PendingName>,
    keep: spec_fn(PendingName) -> bool,
)
    requires
        pending_ids_distinct(pending),
    ensures
        pending_ids_distinct(pending.filter(keep)),
    decreases pending.len(),
{
    reveal_with_fuel(Seq::filter, 1);
    if pending.len() > 0 {
        let init = pending.drop_last();
        let last = pending.last();
        assert(pending_ids_distinct(init)) by {
            assert forall|i: int, j: int| 0 <= i < j < init.len() implies #[trigger] init[i].session_id@
                != #[trigger] init[j].session_id@ by {
                assert(init[i] == pending[i] && init[j] == pending[j]);
            }
        }
        lemma_filter_keeps_pending_ids_distinct(init, keep);
        let kept = init.filter(keep);
        assert forall|k: int| 0 <= k < kept.len() implies kept[k].session_id@ != last.session_id@ by {
            init.lemma_filter_contains_rev(keep, kept[k]);
            let j = choose|j: int| 0 <= j < init.len() && init[j] == kept[k];
            assert(pending[j] == init[j]);
            assert(pending[j].session_id@ != pending[pending.len() - 1].session_id@);
        }
        if keep(last) {
            assert forall|i: int, j: int| 0 <= i < j < kept.push(last).len() implies
                #[trigger] kept.push(last)[i].session_id@ != #[trigger] kept.push(last)[j].session_id@ by {
                if j == kept.len() {
                    assert(kept.push(last)[j] == last);
                    assert(kept.push(last)[i] == kept[i]);
                } else {
                    assert(kept.push(last)[i] == kept[i] && kept.push(last)[j] == kept[j]);
                }
            }
        }
    }
}

/// The pending names without the one for `session_id`, in their order.
pub fn forget_pending_name(pending: Vec<PendingName>, session_id: &str) -> (r: Vec<PendingName>)
    ensures
        r@ == pending@.filter(|p: PendingName| p.session_id@ != session_id@),
        pending_ids_distinct(pending@) ==> pending_ids_distinct(r@),
{
    let ghost other = |p: PendingName| p.session_id@ != session_id@;
    let mut out: Vec<PendingName> = Vec::new();
    let mut i: usize = 0;
    while i < pending.len()
        invariant
            i <= pending@.len(),
            other == (|p: PendingName| p.session_id@ != session_id@),
            out@ == pending@.subrange(0, i as int).filter(other),
        decreases pending@.len() - i,
    {
        let ghost before = pending@.subrange(0, i as int);
        assert(pending@.subrange(0, i + 1) == before.push(pending@[i as int]));
        if !str_eq(pending[i].session_id.as_str(), session_id) {
            out.push(pending[i].duplicate());
        }
        proof {
            let next = pending@.subrange(0, i + 1);
            assert(next.drop_last() =~= before);
            reveal_with_fuel(Seq::filter, 1);
        }
        i = i + 1;
    }
    assert(pending@.subrange(0, pending@.len() as int) == pending@);
    proof {
        if pending_ids_distinct(pending@) {
            lemma_filter_keeps_pending_ids_distinct(pending@, other);
        }
    }
    out
}

/// Records the name asked for a session, replacing the one it had; the others keep their
/// order and the new one comes last.
pub fn record_pending_name(pending: Vec<PendingName>, entry: PendingName) -> (r: Vec<PendingName>)
    ensures
        r@ == pending@.filter(|p: PendingName| p.session_id@ != entry.session_id@).push(entry),
        pending_ids_distinct(pending@) ==> pending_ids_distinct(r@),
{
    let mut out = forget_pending_name(pending, entry.session_id.as_str());
    let ghost kept = out@;
    proof {
        assert forall|k: int| 0 <= k < kept.len() implies kept[k].session_id@ != entry.session_id@ by {
            pending@.lemma_filter_pred(|p: PendingName| p.session_id@ != entry.session_id@, k);
        }
    }
    out.push(entry);
    proof {
        if pending_ids_distinct(pending@) {
            assert forall|i: int, j: int| 0 <= i < j < out@.len() implies #[trigger] out@[i].session_id@
                != #[trigger] out@[j].session_id@ by {
                assert(out@[i] == kept[i]);
                if j < kept.len() {
                    assert(out@[j] == kept[j]);
                }
            }
        }
    }
    out
}

/// What Bootty remembers of a session's name.
#[derive(Clone, Debug)]
pub struct NameRecord {
    /// The name Bootty generated for the session's directory.
    pub generated_name: String,
    /// The name Bootty shows; empty for records written before shown names existed.
    pub display_name: String,
    /// Whether someone chose the name (so Bootty never replaces it).
    pub explicit: bool,
}

/// What the reconciler does with one session.
#[derive(Clone, Debug)]
pub enum NameStep {
    /// The backend now reports the pending name: remember it as generated, stop waiting.
    AdoptPending,
    /// The session was renamed by hand while a name was pending: stop waiting, keep the new
    /// name as chosen.
    DropPendingMarkExplicit,
    /// Still waiting for the backend to report the pending name.
    AwaitPending,
    /// The name was chosen by someone: leave it.
    KeepExplicit,
    /// The backend name differs from the generated one: someone renamed it; record that.
    MarkExplicit,
    /// The generated name is already right, or the backend cannot rename.
    Unchanged,
    /// Ask the backend to rename the session to this name.
    Rename(String),
}

/// The facts about one session that the reconciler decides on. `extends_generated` and
/// `extends_suggested` say whether the backend name is the generated (resp. suggested) name or
/// that name with a uniqueness suffix; `desired` is the unique name the session's directory
/// suggests against every name already taken.
#[derive(Clone, Debug)]
pub struct SessionNameFacts {
    pub name: String,
    pub root: String,
    pub record: NameRecord,
    pub pending: Option<PendingName>,
    pub suggested: String,
    pub extends_generated: bool,
    pub extends_suggested: bool,
    pub desired: String,
    pub rename_supported: bool,
}

/// The outcome for one session: the record as it stands after the shown name was worked out,
/// whether a pending name from another directory was dropped, and the step.
#[derive(Clone, Debug)]
pub struct NameDecision {
    pub record: NameRecord,
    pub stale_pending_dropped: bool,
    pub step: NameStep,
}

/// The record once its shown name is filled in: a name that is the generated name plus a
/// suffix goes back to being generated; the shown name is the chosen name, or the suggested
/// name whenever the backend name is that name with a suffix.
pub open spec fn filled_record(f: SessionNameFacts) -> (Seq<char>, Seq<char>, bool) {
    let r = f.record;
    if r.display_name@.len() > 0 {
        (r.generated_name@, r.display_name@, r.explicit)
    } else {
        let reclaim = r.explicit && f.name@ != r.generated_name@ && f.extends_generated;
        let generated = if reclaim {
            f.name@
        } else {
            r.generated_name@
        };
        let explicit = r.explicit && !reclaim;
        let display = if explicit {
            f.name@
        } else if f.extends_suggested {
            f.suggested@
        } else {
            f.name@
        };
        (generated, display, explicit)
    }
}

/// The step for one session, given its record after filling.
pub open spec fn name_step(f: SessionNameFacts, generated: Seq<char>, explicit: bool, step: NameStep) -> bool {
    let pending_here = f.pending matches Some(p) && p.cwd@ == f.root@;
    if pending_here {
        let p = f.pending->0;
        if f.name@ == p.name@ {
            step is AdoptPending
        } else if f.name@ != generated {
            step is DropPendingMarkExplicit
        } else {
            step is AwaitPending
        }
    } else if explicit {
        step is KeepExplicit
    } else if f.name@ != generated {
        step is MarkExplicit
    } else if f.desired@ == f.name@ || !f.rename_supported {
        step is Unchanged
    } else {
        step matches NameStep::Rename(n) && n@ == f.desired@
    }
}

/// Decides what to do with one session (see `filled_record` and `name_step`).
pub fn reconcile_session_name(f: &SessionNameFacts) -> (d: NameDecision)
    ensures
        (d.record.generated_name@, d.record.display_name@, d.record.explicit) == filled_record(*f),
        d.stale_pending_dropped == (f.pending matches Some(p) && p.cwd@ != f.root@),
        name_step(*f, d.record.generated_name@, d.record.explicit, d.step),
{
    let record = if f.record.display_name.unicode_len() == 0 {
        let reclaim = f.record.explicit && !str_eq(f.name.as_str(), f.record.generated_name.as_str())
            && f.extends_generated;
        let generated = if reclaim {
            f.name.clone()
        } else {
            f.record.generated_name.clone()
        };
        let explicit = f.record.explicit && !reclaim;
        let display = if explicit {
            f.name.clone()
        } else if f.extends_suggested {
            f.suggested.clone()
        } else {
            f.name.clone()
        };
        NameRecord { generated_name: generated, display_name: display, explicit }
    } else {
        NameRecord {
            generated_name: f.record.generated_name.clone(),
            display_name: f.record.display_name.clone(),
            explicit: f.record.explicit,
        }
    };
    let mut stale = false;
    match &f.pending {
        Some(p) => {
            if str_eq(p.cwd.as_str(), f.root.as_str()) {
                let step = if str_eq(f.name.as_str(), p.name.as_str()) {
                    NameStep::AdoptPending
                } else if !str_eq(f.name.as_str(), record.generated_name.as_str()) {
                    NameStep::DropPendingMarkExplicit
                } else {
                    NameStep::AwaitPending
                };
                return NameDecision { record, stale_pending_dropped: false, step };
            }
            stale = true;
        },
        None => {},
    }
    let step = if record.explicit {
        NameStep::KeepExplicit
    } else if !str_eq(f.name.as_str(), record.generated_name.as_str()) {
        NameStep::MarkExplicit
    } else if str_eq(f.desired.as_str(), f.name.as_str()) || !f.rename_supported {
        NameStep::Unchanged
    } else {
        NameStep::Rename(f.desired.clone())
    };
    NameDecision { record, stale_pending_dropped: stale, step }
}

/// A session whose name someone chose is never renamed, and a rename always asks for a name
/// different from the session's current one.
pub proof fn lemma_rename_respects_chosen_names(f: SessionNameFacts, d: NameDecision)
    requires
        (d.record.generated_name@, d.record.display_name@, d.record.explicit) == filled_record(f),
        name_step(f, d.record.generated_name@, d.record.explicit, d.step),
    ensures
        d.step matches NameStep::Rename(n) ==> !d.record.explicit && n@ != f.name@ && f.rename_supported,
        f.record.explicit && !f.extends_generated ==> !(d.step is Rename),
{
}

/// A session as the sidebar names it: its backend name and the name Bootty means to show,
/// when it has one.
#[derive(Clone, Debug)]
pub struct ShownName {
    pub name: String,
    pub display_name: Option<String>,
}

/// The name a session would be shown under.
pub open spec fn candidate(s: ShownName) -> Seq<char> {
    match s.display_name {
        Some(d) => d@,
        None => s.name@,
    }
}

/// How many of the first `upto` sessions would be shown as `x`.
pub open spec fn candidate_count(sessions: Seq<ShownName>, x: Seq<char>, upto: int) -> nat
    decreases upto,
{
    if upto <= 0 {
        0
    } else {
        candidate_count(sessions, x, upto - 1) + if candidate(sessions[upto - 1]) == x {
            1nat
        } else {
            0nat
        }
    }
}

/// The names shown for sessions: the display name, unless two sessions would show the same
/// one, in which case each of those shows its backend name.
pub open spec fn shown_names(sessions: Seq<ShownName>) -> Seq<Seq<char>> {
    Seq::new(
        sessions.len(),
        |i: int|
            if candidate_count(sessions, candidate(sessions[i]), sessions.len() as int) > 1 {
                sessions[i].name@
            } else {
                candidate(sessions[i])
            },
    )
}

fn candidate_of(s: &ShownName) -> (r: &str)
    ensures
        r@ == candidate(*s),
{
    match &s.display_name {
        Some(d) => d.as_str(),
        None => s.name.as_str(),
    }
}

fn count_candidates(sessions: &[ShownName], x: &str) -> (r: usize)
    ensures
        r == candidate_count(sessions@, x@, sessions@.len() as int),
{
    let mut c: usize = 0;
    let mut i: usize = 0;
    while i < sessions.len()
        invariant
            i <= sessions@.len(),
            c == candidate_count(sessions@, x@, i as int),
            c <= i,
        decreases sessions@.len() - i,
    {
        if str_eq(candidate_of(&sessions[i]), x) {
            c = c + 1;
        }
        i = i + 1;
    }
    c
}

/// The names the sidebar shows for `sessions` (see `shown_names`).
pub fn session_display_names(sessions: &[ShownName]) -> (r: Vec<String>)
    ensures
        r@.len() == sessions@.len(),
        forall|i: int| 0 <= i < r@.len() ==> #[trigger] r@[i]@ == shown_names(sessions@)[i],
{
    let mut out: Vec<String> = Vec::new();
    let mut i: usize = 0;
    while i < sessions.len()
        invariant
            i <= sessions@.len(),
            out@.len() == i,
            forall|k: int| 0 <= k < i ==> #[trigger] out@[k]@ == shown_names(sessions@)[k],
        decreases sessions@.len() - i,
    {
        let cand = candidate_of(&sessions[i]);
        let shown = if count_candidates(sessions, cand) > 1 {
            sessions[i].name.clone()
        } else {
            cand.to_owned()
        };
        out.push(shown);
        i = i + 1;
    }
    out
}

/// Every name a new or renamed session must avoid: the names the backends report and the names
/// still pending, in that order, without `keep` (the session being renamed keeps its own name
/// available to itself).
pub open spec fn taken_names(reported: Seq<String>, pending: Seq<String>, keep: Option<Seq<char>>) -> Seq<
    String,
> {
    (reported + pending).filter(|n: String| keep != Some(n@))
}

fn append_kept(out: &mut Vec<String>, names: &[String], keep: Option<&str>)
    ensures
        final(out)@ == old(out)@ + names@.filter(
            |x: String| crate::layout::opt_str(keep) != Some(x@),
        ),
{
    let ghost k = crate::layout::opt_str(keep);
    proof {
        reveal_with_fuel(Seq::filter, 1);
    }
    let mut i: usize = 0;
    while i < names.len()
        invariant
            k == crate::layout::opt_str(keep),
            i <= names@.len(),
            out@ == old(out)@ + names@.subrange(0, i as int).filter(|x: String| k != Some(x@)),
        decreases names@.len() - i,
    {
        proof {
            assert(names@.subrange(0, i + 1).drop_last() =~= names@.subrange(0, i as int));
            reveal_with_fuel(Seq::filter, 1);
        }
        let dropped = match keep {
            Some(kn) => str_eq(names[i].as_str(), kn),
            None => false,
        };
        let ghost before = out@;
        if !dropped {
            out.push(names[i].clone());
            proof {
                let f = names@.subrange(0, i as int).filter(|x: String| k != Some(x@));
                assert(before == old(out)@ + f);
                assert(out@ =~= old(out)@ + f.push(names@[i as int]));
            }
        }
        i = i + 1;
    }
    assert(names@.subrange(0, names@.len() as int) =~= names@);
}

pub fn taken_session_names(reported: &[String], pending: &[String], keep: Option<&str>) -> (r: Vec<
    String,
>)
    ensures
        r@ == taken_names(reported@, pending@, crate::layout::opt_str(keep)),
{
    let mut out: Vec<String> = Vec::new();
    append_kept(&mut out, reported, keep);
    append_kept(&mut out, pending, keep);
    proof {
        let k = crate::layout::opt_str(keep);
        Seq::filter_distributes_over_add(reported@, pending@, |x: String| k != Some(x@));
        assert(out@ =~= taken_names(reported@, pending@, k));
    }
    out
}

/// The texts of some names.
pub open spec fn name_set(names: Seq<String>) -> Set<Seq<char>> {
    Set::new(|t: Seq<char>| exists|i: int| 0 <= i < names.len() && #[trigger] names[i]@ == t)
}

/// The names a session's generated name must clear during a pass: every name on the server
/// except the session's own, and every name planned so far.
pub open spec fn existing_name_set(taken: Seq<String>, planned: Set<Seq<char>>, own: Seq<char>) -> Set<
    Seq<char>,
> {
    name_set(taken).remove(own) + planned
}

/// One pass of generating names over a binding's sessions: the names taken on the server, the
/// names planned so far (at first, those still pending), and the renames asked for.
pub struct NamePass {
    pub taken: Vec<String>,
    pub planned: Vec<String>,
    /// The session and the name asked for it, in the order asked.
    pub renames: Vec<(String, String)>,
}

impl NamePass {
    /// Starts a pass: the pending names count as planned.
    pub fn start(taken: Vec<String>, pending: &[PendingName]) -> (r: NamePass)
        ensures
            r.taken@ == taken@,
            name_set(r.planned@) == Set::new(
                |t: Seq<char>| exists|i: int| 0 <= i < pending@.len() && #[trigger] pending@[i].name@ == t,
            ),
            r.renames@.len() == 0,
    {
        let mut planned: Vec<String> = Vec::new();
        let mut i: usize = 0;
        while i < pending.len()
            invariant
                i <= pending@.len(),
                planned@.len() == i,
                forall|k: int| 0 <= k < i ==> #[trigger] planned@[k]@ == pending@[k].name@,
            decreases pending@.len() - i,
        {
            planned.push(pending[i].name.clone());
            i = i + 1;
        }
        assert(name_set(planned@) =~= Set::new(
            |t: Seq<char>| exists|i: int| 0 <= i < pending@.len() && #[trigger] pending@[i].name@ == t,
        )) by {
            assert forall|t: Seq<char>| name_set(planned@).contains(t) implies exists|i: int|
                0 <= i < pending@.len() && #[trigger] pending@[i].name@ == t by {
                let k = choose|k: int| 0 <= k < planned@.len() && #[trigger] planned@[k]@ == t;
                assert(pending@[k].name@ == t);
            }
            assert forall|t: Seq<char>| (exists|i: int| 0 <= i < pending@.len() && #[trigger] pending@[i].name@
                == t) implies name_set(planned@).contains(t) by {
                let k = choose|k: int| 0 <= k < pending@.len() && #[trigger] pending@[k].name@ == t;
                assert(planned@[k]@ == t);
            }
        }
        NamePass { taken, planned, renames: Vec::new() }
    }

    /// The names the session called `own` must clear (see `existing_name_set`).
    pub fn existing_names(&self, own: &str) -> (r: Vec<String>)
        ensures
            name_set(r@) == existing_name_set(self.taken@, name_set(self.planned@), own@),
    {
        let mut out: Vec<String> = Vec::new();
        let ghost mut src: Seq<int> = Seq::empty();
        let mut i: usize = 0;
        while i < self.taken.len()
            invariant
                i <= self.taken@.len(),
                src.len() == out@.len(),
                forall|k: int| 0 <= k < out@.len() ==> 0 <= #[trigger] src[k] < i && self.taken@[src[k]]@
                    == out@[k]@ && self.taken@[src[k]]@ != own@,
                forall|j: int| 0 <= j < i && (#[trigger] self.taken@[j])@ != own@ ==> exists|k: int|
                    0 <= k < out@.len() && (#[trigger] out@[k])@ == self.taken@[j]@,
            decreases self.taken@.len() - i,
        {
            if !str_eq(self.taken[i].as_str(), own) {
                let name = self.taken[i].clone();
                let ghost before = out@;
                out.push(name);
                proof {
                    src = src.push(i as int);
                    assert(out@[before.len() as int]@ == self.taken@[i as int]@);
                    assert forall|k: int| 0 <= k < out@.len() implies 0 <= #[trigger] src[k] < i + 1
                        && self.taken@[src[k]]@ == out@[k]@ && self.taken@[src[k]]@ != own@ by {
                        if k < before.len() {
                            assert(out@[k] == before[k]);
                        }
                    }
                    assert forall|j: int| 0 <= j < i + 1 && (#[trigger] self.taken@[j])@ != own@ implies exists|k: int|
                        0 <= k < out@.len() && (#[trigger] out@[k])@ == self.taken@[j]@ by {
                        if j < i {
                            let k = choose|k: int| 0 <= k < before.len() && (#[trigger] before[k])@ == self.taken@[j]@;
                            assert(out@[k] == before[k]);
                        } else {
                            assert(out@[before.len() as int]@ == self.taken@[j]@);
                        }
                    }
                }
            }
            i = i + 1;
        }
        let ghost from_taken = out@;
        let ghost taken_src = src;
        let mut p: usize = 0;
        while p < self.planned.len()
            invariant
                p <= self.planned@.len(),
                out@.len() == from_taken.len() + p,
                forall|k: int| 0 <= k < from_taken.len() ==> #[trigger] out@[k] == from_taken[k],
                forall|k: int| 0 <= k < from_taken.len() ==> 0 <= #[trigger] taken_src[k] < self.taken@.len()
                    && self.taken@[taken_src[k]]@ == from_taken[k]@ && self.taken@[taken_src[k]]@ != own@,
                forall|k: int| 0 <= k < p ==> #[trigger] out@[from_taken.len() + k]@ == self.planned@[k]@,
            decreases self.planned@.len() - p,
        {
            out.push(self.planned[p].clone());
            p = p + 1;
        }
        proof {
            let want = existing_name_set(self.taken@, name_set(self.planned@), own@);
            assert forall|t: Seq<char>| name_set(out@).contains(t) implies want.contains(t) by {
                let k = choose|k: int| 0 <= k < out@.len() && #[trigger] out@[k]@ == t;
                if k < from_taken.len() {
                    assert(out@[k] == from_taken[k]);
                    let j = taken_src[k];
                    assert(self.taken@[j]@ == t);
                    assert(name_set(self.taken@).contains(t));
                } else {
                    let q = k - from_taken.len();
                    assert(out@[from_taken.len() + q]@ == self.planned@[q]@);
                    assert(name_set(self.planned@).contains(t));
                }
            }
            assert forall|t: Seq<char>| want.contains(t) implies name_set(out@).contains(t) by {
                if name_set(self.planned@).contains(t) {
                    let q = choose|q: int| 0 <= q < self.planned@.len() && #[trigger] self.planned@[q]@ == t;
                    assert(out@[from_taken.len() + q]@ == t);
                } else {
                    let j = choose|j: int| 0 <= j < self.taken@.len() && #[trigger] self.taken@[j]@ == t;
                    let k = choose|k: int| 0 <= k < from_taken.len() && (#[trigger] from_taken[k])@
                        == self.taken@[j]@;
                    assert(out@[k] == from_taken[k]);
                }
            }
            assert(name_set(out@) =~= want);
        }
        out
    }

    /// A pending name the backend now reports, or one given up on, stops counting as planned.
    pub fn unplan(&mut self, name: &str)
        ensures
            final(self).taken@ == old(self).taken@,
            final(self).renames@ == old(self).renames@,
            name_set(final(self).planned@) == name_set(old(self).planned@).remove(name@),
    {
        let mut kept: Vec<String> = Vec::new();
        let ghost mut src: Seq<int> = Seq::empty();
        let mut i: usize = 0;
        while i < self.planned.len()
            invariant
                i <= self.planned@.len(),
                src.len() == kept@.len(),
                forall|k: int| 0 <= k < kept@.len() ==> 0 <= #[trigger] src[k] < i && self.planned@[src[k]]@
                    == kept@[k]@ && self.planned@[src[k]]@ != name@,
                forall|j: int| 0 <= j < i && (#[trigger] self.planned@[j])@ != name@ ==> exists|k: int|
                    0 <= k < kept@.len() && (#[trigger] kept@[k])@ == self.planned@[j]@,
            decreases self.planned@.len() - i,
        {
            if !str_eq(self.planned[i].as_str(), name) {
                let ghost before = kept@;
                kept.push(self.planned[i].clone());
                proof {
                    src = src.push(i as int);
                    assert(kept@[before.len() as int]@ == self.planned@[i as int]@);
                    assert forall|k: int| 0 <= k < kept@.len() implies 0 <= #[trigger] src[k] < i + 1
                        && self.planned@[src[k]]@ == kept@[k]@ && self.planned@[src[k]]@ != name@ by {
                        if k < before.len() {
                            assert(kept@[k] == before[k]);
                        }
                    }
                    assert forall|j: int| 0 <= j < i + 1 && (#[trigger] self.planned@[j])@ != name@ implies exists|k: int|
                        0 <= k < kept@.len() && (#[trigger] kept@[k])@ == self.planned@[j]@ by {
                        if j < i {
                            let k = choose|k: int| 0 <= k < before.len() && (#[trigger] before[k])@ == self.planned@[j]@;
                            assert(kept@[k] == before[k]);
                        } else {
                            assert(kept@[before.len() as int]@ == self.planned@[j]@);
                        }
                    }
                }
            }
            i = i + 1;
        }
        proof {
            let want = name_set(self.planned@).remove(name@);
            assert forall|t: Seq<char>| name_set(kept@).contains(t) implies want.contains(t) by {
                let k = choose|k: int| 0 <= k < kept@.len() && #[trigger] kept@[k]@ == t;
                let j = src[k];
                assert(self.planned@[j]@ == t);
                assert(name_set(self.planned@).contains(t));
            }
            assert forall|t: Seq<char>| want.contains(t) implies name_set(kept@).contains(t) by {
                let j = choose|j: int| 0 <= j < self.planned@.len() && #[trigger] self.planned@[j]@ == t;
                let k = choose|k: int| 0 <= k < kept@.len() && (#[trigger] kept@[k])@ == self.planned@[j]@;
            }
            assert(name_set(kept@) =~= want);
        }
        self.planned = kept;
    }

    /// Asks for `name` for the session `session_id`: the name counts as planned from now on.
    pub fn plan(&mut self, session_id: String, name: String)
        ensures
            final(self).taken@ == old(self).taken@,
            final(self).renames@ == old(self).renames@.push((session_id, name)),
            name_set(final(self).planned@) == name_set(old(self).planned@).insert(name@),
    {
        let ghost before = self.planned@;
        self.planned.push(name.clone());
        self.renames.push((session_id, name));
        proof {
            let now = self.planned@;
            assert forall|t: Seq<char>| name_set(now).contains(t) implies name_set(before).insert(name@).contains(t) by {
                let k = choose|k: int| 0 <= k < now.len() && #[trigger] now[k]@ == t;
                if k < before.len() {
                    assert(now[k] == before[k]);
                }
            }
            assert forall|t: Seq<char>| name_set(before).insert(name@).contains(t) implies name_set(now).contains(t) by {
                if t == name@ {
                    assert(now[before.len() as int]@ == t);
                } else {
                    let k = choose|k: int| 0 <= k < before.len() && #[trigger] before[k]@ == t;
                    assert(now[k] == before[k]);
                }
            }
            assert(name_set(now) =~= name_set(before).insert(name@));
        }
    }
}

/// Within one pass, a name asked for a session that clears the existing names is held by no
/// other session on the server, and a second session's name that clears the existing names
/// after the first was planned differs from the first.
pub proof fn lemma_pass_names_are_unique(
    taken: Seq<String>,
    planned: Set<Seq<char>>,
    own1: Seq<char>,
    name1: Seq<char>,
    own2: Seq<char>,
    name2: Seq<char>,
)
    requires
        !existing_name_set(taken, planned, own1).contains(name1),
        !existing_name_set(taken, planned.insert(name1), own2).contains(name2),
    ensures
        name1 == own1 || !name_set(taken).contains(name1),
        !planned.contains(name1),
        name2 != name1,
        !planned.contains(name2),
{
}

/// What the name pass looks at of a session: its id, its name and its directory (empty when it
/// reports none).
#[derive(Clone, Debug)]
pub struct SessionKey {
    pub id: String,
    pub name: String,
    pub cwd: String,
}

pub open spec fn session_keys(s: Seq<SessionKey>) -> Seq<(Seq<char>, Seq<char>, Seq<char>)> {
    Seq::new(s.len(), |i: int| (s[i].id@, s[i].name@, s[i].cwd@))
}

fn same_session_keys(a: &[SessionKey], b: &[SessionKey]) -> (r: bool)
    ensures
        r == (session_keys(a@) == session_keys(b@)),
{
    if a.len() != b.len() {
        proof {
            assert(session_keys(a@).len() != session_keys(b@).len());
        }
        return false;
    }
    let mut i: usize = 0;
    while i < a.len()
        invariant
            a@.len() == b@.len(),
            i <= a@.len(),
            forall|k: int| 0 <= k < i ==> #[trigger] session_keys(a@)[k] == session_keys(b@)[k],
        decreases a@.len() - i,
    {
        if !str_eq(a[i].id.as_str(), b[i].id.as_str()) || !str_eq(a[i].name.as_str(), b[i].name.as_str())
            || !str_eq(a[i].cwd.as_str(), b[i].cwd.as_str()) {
            proof {
                assert(session_keys(a@)[i as int] != session_keys(b@)[i as int]);
            }
            return false;
        }
        i = i + 1;
    }
    assert(session_keys(a@) =~= session_keys(b@));
    true
}

/// Whether the generated names need reconciling this frame: never on rmux (which names its own
/// sessions); otherwise only when the sessions on the server (ids, names, directories, in order)
/// differ from those of the last pass, which are then remembered.
pub fn generated_names_need_sync(rmux: bool, last: &mut Option<Vec<SessionKey>>, sessions: Vec<SessionKey>) -> (r: bool)
    ensures
        r == (!rmux && !(*old(last) matches Some(v) && session_keys(v@) == session_keys(sessions@))),
        r ==> *final(last) == Some(sessions),
        !r ==> *final(last) == *old(last),
{
    if rmux {
        return false;
    }
    let unchanged = match last {
        Some(v) => same_session_keys(v.as_slice(), sessions.as_slice()),
        None => false,
    };
    if unchanged {
        return false;
    }
    *last = Some(sessions);
    true
}

} // verus!
