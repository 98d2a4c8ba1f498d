//! Routing primary-button pointer events between a mouse selection and the terminal. The
//! geometry (which cell a position falls on, whether the pointer sits in the scroll zone) is
//! worked out by the caller for each event; here the router decides, from that and its own
//! state, what starts, updates or ends a selection and which events reach the terminal.
use vstd::prelude::*;

verus! {

/// A pointer event with the facts the router needs about it. `E` is the event as the window
/// delivered it (handed on unchanged), `P` a pointer position, `S` a point of the terminal grid.
pub enum PointerFacts<E, P, S> {
    /// The primary button went down.
    PrimaryPress {
        event: E,
        /// Inside the terminal surface and not on a chrome handle.
        on_terminal: bool,
        /// Shift was held (with the press or for the frame): the press starts a selection.
        extend: bool,
        /// The grid point under the press (alt making it rectangular), if any.
        start: Option<S>,
    },
    /// The pointer moved.
    Move {
        event: E,
        pos: P,
        /// Whether the position is in a scroll zone at the top or bottom edge.
        in_scroll_zone: bool,
        /// The grid point nearest the position.
        clamped: Option<S>,
    },
    /// The primary button went up.
    PrimaryRelease { event: E, clamped: Option<S> },
    /// Any other event.
    Other { event: E },
}

/// What the terminal's selection does.
pub enum SelectionAction<S> {
    Begin(S),
    Update(S),
    Scroll(isize),
    End(Option<S>),
}

/// The router's state between frames.
pub struct SelectionRouter<P, S> {
    /// A selection is in progress.
    pub active: bool,
    /// Where the pointer was last seen while selecting.
    pub drag_pos: Option<P>,
    /// A plain press that becomes a selection if the pointer moves before the release.
    pub pending_start: Option<S>,
    /// The terminal saw the press that started the selection, so it sees the rest too.
    pub passthrough_active: bool,
}

/// One event's routing: the router after it, the event if it reaches the terminal, and the
/// selection actions it causes.
pub open spec fn selection_step<E, P, S>(
    r: SelectionRouter<P, S>,
    f: PointerFacts<E, P, S>,
    mouse_tracking: bool,
) -> (SelectionRouter<P, S>, Option<E>, Seq<SelectionAction<S>>) {
    match f {
        PointerFacts::PrimaryPress { event, on_terminal, extend, start } => {
            if !on_terminal {
                (r, Some(event), Seq::empty())
            } else if extend && start is Some {
                (
                    SelectionRouter {
                        active: true,
                        drag_pos: None,
                        pending_start: None,
                        passthrough_active: false,
                    },
                    None,
                    seq![SelectionAction::Begin(start->0)],
                )
            } else if !extend && !mouse_tracking {
                (SelectionRouter { pending_start: start, ..r }, Some(event), Seq::empty())
            } else {
                (r, Some(event), Seq::empty())
            }
        },
        PointerFacts::Move { event, pos, in_scroll_zone, clamped } => {
            if r.active {
                let update = if !in_scroll_zone && clamped is Some {
                    seq![SelectionAction::Update(clamped->0)]
                } else {
                    Seq::empty()
                };
                (
                    SelectionRouter { drag_pos: Some(pos), ..r },
                    if r.passthrough_active {
                        Some(event)
                    } else {
                        None
                    },
                    update,
                )
            } else if r.pending_start is Some {
                if mouse_tracking {
                    (SelectionRouter { pending_start: None, ..r }, Some(event), Seq::empty())
                } else {
                    let begin = seq![SelectionAction::Begin(r.pending_start->0)];
                    let update = if !in_scroll_zone && clamped is Some {
                        seq![SelectionAction::Update(clamped->0)]
                    } else {
                        Seq::empty()
                    };
                    (
                        SelectionRouter {
                            active: true,
                            passthrough_active: true,
                            drag_pos: Some(pos),
                            pending_start: None,
                        },
                        Some(event),
                        begin + update,
                    )
                }
            } else {
                (r, Some(event), Seq::empty())
            }
        },
        PointerFacts::PrimaryRelease { event, clamped } => {
            if r.active {
                (
                    SelectionRouter {
                        active: false,
                        drag_pos: None,
                        pending_start: None,
                        passthrough_active: false,
                    },
                    if r.passthrough_active {
                        Some(event)
                    } else {
                        None
                    },
                    seq![SelectionAction::End(clamped)],
                )
            } else if r.pending_start is Some {
                (SelectionRouter { pending_start: None, ..r }, Some(event), Seq::empty())
            } else {
                (r, Some(event), Seq::empty())
            }
        },
        PointerFacts::Other { event } => (r, Some(event), Seq::empty()),
    }
}

/// Routing a frame's events one after another: the router after them, the events that reach
/// the terminal, in order, and the selection actions, in order.
pub open spec fn selection_route<E, P, S>(
    r: SelectionRouter<P, S>,
    facts: Seq<PointerFacts<E, P, S>>,
    mouse_tracking: bool,
) -> (SelectionRouter<P, S>, Seq<E>, Seq<SelectionAction<S>>)
    decreases facts.len(),
{
    if facts.len() == 0 {
        (r, Seq::empty(), Seq::empty())
    } else {
        let (r1, passed, actions) = selection_route(r, facts.drop_last(), mouse_tracking);
        let (r2, e, a) = selection_step(r1, facts.last(), mouse_tracking);
        (
            r2,
            match e {
                Some(ev) => passed.push(ev),
                None => passed,
            },
            actions + a,
        )
    }
}

/// The events and actions of one frame.
pub struct SelectionRouting<E, S> {
    pub terminal_events: Vec<E>,
    pub actions: Vec<SelectionAction<S>>,
}

impl<P, S> SelectionRouter<P, S> {
    pub fn new() -> (r: Self)
        ensures
            !r.active,
            r.drag_pos is None,
            r.pending_start is None,
            !r.passthrough_active,
    {
        SelectionRouter { active: false, drag_pos: None, pending_start: None, passthrough_active: false }
    }

    /// Routes one frame's pointer events. Without a terminal surface the router resets and
    /// every event goes to the terminal unchanged; otherwise see `selection_route`.
    pub fn route_events<E>(
        &mut self,
        facts: Vec<PointerFacts<E, P, S>>,
        surface_present: bool,
        mouse_tracking: bool,
    ) -> (out: SelectionRouting<E, S>)
        ensures
            !surface_present ==> {
                &&& !final(self).active
                &&& final(self).drag_pos is None
                &&& final(self).pending_start is None
                &&& !final(self).passthrough_active
                &&& out.actions@.len() == 0
                &&& out.terminal_events@ == facts@.map_values(|f: PointerFacts<E, P, S>| fact_event(f))
            },
            surface_present ==> (*final(self), out.terminal_events@, out.actions@) == selection_route(
                *old(self),
                facts@,
                mouse_tracking,
            ),
    {
        let ghost all = facts@;
        let mut passed: Vec<E> = Vec::new();
        let mut actions: Vec<SelectionAction<S>> = Vec::new();
        if !surface_present {
            self.active = false;
            self.drag_pos = None;
            self.pending_start = None;
            self.passthrough_active = false;
            let mut rest = facts;
            let ghost mut i: int = 0;
            while rest.len() > 0
                invariant
                    0 <= i,
                    all.len() == i + rest@.len(),
                    rest@ == all.subrange(i, all.len() as int),
                    passed@ == all.subrange(0, i).map_values(
                        |f: PointerFacts<E, P, S>| fact_event(f),
                    ),
                decreases rest@.len(),
            {
                let f = rest.remove(0);
                proof {
                    assert(f == all[i]);
                    assert(all.subrange(0, i + 1).map_values(|f: PointerFacts<E, P, S>| fact_event(f))
                        =~= passed@.push(fact_event(f)));
                }
                passed.push(take_event(f));
                proof {
                    i = i + 1;
                }
            }
            proof {
                assert(all.subrange(0, all.len() as int) =~= all);
            }
            return SelectionRouting { terminal_events: passed, actions };
        }
        let ghost start = *self;
        let mut rest = facts;
        let ghost mut i: int = 0;
        while rest.len() > 0
            invariant
                0 <= i,
                    all.len() == i + rest@.len(),
                rest@ == all.subrange(i, all.len() as int),
                (*self, passed@, actions@) == selection_route(
                    start,
                    all.subrange(0, i),
                    mouse_tracking,
                ),
            decreases rest@.len(),
        {
            let f = rest.remove(0);
            proof {
                assert(f == all[i]);
                assert(all.subrange(0, i + 1).drop_last() =~= all.subrange(0, i));
                assert(all.subrange(0, i + 1).last() == f);
            }
            let ghost before = actions@;
            match f {
                PointerFacts::PrimaryPress { event, on_terminal, extend, start: point } => {
                    if !on_terminal {
                        passed.push(event);
                    } else if extend && point.is_some() {
                        self.active = true;
                        self.drag_pos = None;
                        self.pending_start = None;
                        self.passthrough_active = false;
                        match point {
                            Some(p) => actions.push(SelectionAction::Begin(p)),
                            None => {},
                        }
                    } else if !extend && !mouse_tracking {
                        self.pending_start = point;
                        passed.push(event);
                    } else {
                        passed.push(event);
                    }
                },
                PointerFacts::Move { event, pos, in_scroll_zone, clamped } => {
                    if self.active {
                        self.drag_pos = Some(pos);
                        if !in_scroll_zone {
                            match clamped {
                                Some(c) => actions.push(SelectionAction::Update(c)),
                                None => {},
                            }
                        }
                        if self.passthrough_active {
                            passed.push(event);
                        }
                    } else if self.pending_start.is_some() {
                        if mouse_tracking {
                            self.pending_start = None;
                            passed.push(event);
                        } else {
                            let taken = self.pending_start.take();
                            match taken {
                                Some(s) => actions.push(SelectionAction::Begin(s)),
                                None => {},
                            }
                            self.active = true;
                            self.passthrough_active = true;
                            self.drag_pos = Some(pos);
                            if !in_scroll_zone {
                                match clamped {
                                    Some(c) => actions.push(SelectionAction::Update(c)),
                                    None => {},
                                }
                            }
                            passed.push(event);
                        }
                    } else {
                        passed.push(event);
                    }
                },
                PointerFacts::PrimaryRelease { event, clamped } => {
                    if self.active {
                        actions.push(SelectionAction::End(clamped));
                        self.drag_pos = None;
                        self.pending_start = None;
                        if self.passthrough_active {
                            passed.push(event);
                        }
                        self.passthrough_active = false;
                        self.active = false;
                    } else if self.pending_start.is_some() {
                        self.pending_start = None;
                        passed.push(event);
                    } else {
                        passed.push(event);
                    }
                },
                PointerFacts::Other { event } => {
                    passed.push(event);
                },
            }
            proof {
                let (_, _, a) = selection_step(
                    selection_route(start, all.subrange(0, i), mouse_tracking).0,
                    all[i],
                    mouse_tracking,
                );
                assert(actions@ =~= before + a);
            }
            proof {
                i = i + 1;
            }
        }
        proof {
            assert(all.subrange(0, all.len() as int) =~= all);
        }
        SelectionRouting { terminal_events: passed, actions }
    }

    /// While a drag sits in a scroll zone, each frame scrolls by `delta` rows and moves the
    /// selection to the grid point nearest the pointer. `delta` and `clamped` are worked out by
    /// the caller from `drag_pos`.
    pub fn autoscroll_actions(&self, surface_present: bool, delta: isize, clamped: Option<S>) -> (r: Vec<
        SelectionAction<S>,
    >)
        ensures
            !(self.active && surface_present && self.drag_pos is Some && delta != 0) ==> r@.len()
                == 0,
            self.active && surface_present && self.drag_pos is Some && delta != 0 ==> {
                &&& r@.len() == if clamped is Some {
                    2int
                } else {
                    1int
                }
                &&& r@[0] == SelectionAction::<S>::Scroll(delta)
                &&& clamped matches Some(c) ==> r@[1] == SelectionAction::Update(c)
            },
    {
        let mut actions: Vec<SelectionAction<S>> = Vec::new();
        if !self.active || !surface_present || self.drag_pos.is_none() || delta == 0 {
            return actions;
        }
        actions.push(SelectionAction::Scroll(delta));
        match clamped {
            Some(c) => actions.push(SelectionAction::Update(c)),
            None => {},
        }
        actions
    }
}

/// The event a fact carries.
pub open spec fn fact_event<E, P, S>(f: PointerFacts<E, P, S>) -> E {
    match f {
        PointerFacts::PrimaryPress { event, .. } => event,
        PointerFacts::Move { event, .. } => event,
        PointerFacts::PrimaryRelease { event, .. } => event,
        PointerFacts::Other { event } => event,
    }
}

fn take_event<E, P, S>(f: PointerFacts<E, P, S>) -> (e: E)
    ensures
        e == fact_event(f),
{
    match f {
        PointerFacts::PrimaryPress { event, .. } => event,
        PointerFacts::Move { event, .. } => event,
        PointerFacts::PrimaryRelease { event, .. } => event,
        PointerFacts::Other { event } => event,
    }
}

/// A selection only ends while one is in progress, and ending it leaves the router idle: after
/// a step that emits `End`, nothing is selecting, pending or passing through.
pub proof fn lemma_end_leaves_router_idle<E, P, S>(
    r: SelectionRouter<P, S>,
    f: PointerFacts<E, P, S>,
    mouse_tracking: bool,
)
    ensures
        ({
            let (r2, _, a) = selection_step(r, f, mouse_tracking);
            (exists|k: int| 0 <= k < a.len() && #[trigger] a[k] is End) ==> r.active && !r2.active
                && r2.pending_start is None && !r2.passthrough_active && r2.drag_pos is None
        }),
{
    let (r2, _, a) = selection_step(r, f, mouse_tracking);
    if exists|k: int| 0 <= k < a.len() && #[trigger] a[k] is End {
        let k = choose|k: int| 0 <= k < a.len() && #[trigger] a[k] is End;
        match f {
            PointerFacts::PrimaryPress { .. } => {
                assert(a.len() <= 1);
            },
            PointerFacts::Move { in_scroll_zone, clamped, .. } => {
                if r.active {
                    assert(a[k] is Update);
                } else if r.pending_start is Some && !mouse_tracking {
                    if k == 0 {
                        assert(a[0] is Begin);
                    } else {
                        assert(a[k] is Update);
                    }
                }
            },
            _ => {},
        }
    }
}

/// Events other than primary presses, pointer moves and primary releases reach the terminal
/// and leave the router as it was.
pub proof fn lemma_unrelated_events_pass_through<E, P, S>(
    r: SelectionRouter<P, S>,
    event: E,
    mouse_tracking: bool,
)
    ensures
        selection_step(r, PointerFacts::<E, P, S>::Other { event }, mouse_tracking) == (
        r,
        Some(event),
        Seq::<SelectionAction<S>>::empty(),
        ),
{
}

/// A grid point a selection starts, moves or ends at, and whether the selection is a rectangle.
pub struct SelectionPoint<S> {
    pub at: S,
    pub rectangle: bool,
}

/// The modifier keys that matter to a selection.
#[derive(Clone, Copy, Debug, PartialEq, Eq, Structural)]
pub struct PointerMods {
    pub shift: bool,
    pub alt: bool,
}

pub open spec fn with_shape<S>(at: Option<S>, rectangle: bool) -> Option<SelectionPoint<S>> {
    match at {
        Some(a) => Some(SelectionPoint { at: a, rectangle }),
        None => None,
    }
}

fn shaped<S>(at: Option<S>, rectangle: bool) -> (r: Option<SelectionPoint<S>>)
    ensures
        r == with_shape(at, rectangle),
{
    match at {
        Some(a) => Some(SelectionPoint { at: a, rectangle }),
        None => None,
    }
}

/// The facts of a primary press at grid point `at`. A shift held with the press or for the
/// whole frame starts a selection (even when the event itself carries no modifiers), and alt
/// held either way makes it rectangular.
pub fn press_facts<E, P, S>(
    event: E,
    on_terminal: bool,
    event_mods: PointerMods,
    frame_mods: PointerMods,
    at: Option<S>,
) -> (f: PointerFacts<E, P, SelectionPoint<S>>)
    ensures
        f == (PointerFacts::<E, P, SelectionPoint<S>>::PrimaryPress {
            event,
            on_terminal,
            extend: event_mods.shift || frame_mods.shift,
            start: with_shape(at, event_mods.alt || frame_mods.alt),
        }),
{
    PointerFacts::PrimaryPress {
        event,
        on_terminal,
        extend: event_mods.shift || frame_mods.shift,
        start: shaped(at, event_mods.alt || frame_mods.alt),
    }
}

/// The facts of a pointer move whose nearest grid point is `nearest`; the frame's alt makes
/// the selection rectangular.
pub fn move_facts<E, P, S>(
    event: E,
    pos: P,
    in_scroll_zone: bool,
    frame_mods: PointerMods,
    nearest: Option<S>,
) -> (f: PointerFacts<E, P, SelectionPoint<S>>)
    ensures
        f == (PointerFacts::<E, P, SelectionPoint<S>>::Move {
            event,
            pos,
            in_scroll_zone,
            clamped: with_shape(nearest, frame_mods.alt),
        }),
{
    PointerFacts::Move { event, pos, in_scroll_zone, clamped: shaped(nearest, frame_mods.alt) }
}

/// The facts of a primary release whose nearest grid point is `nearest`; alt held with the
/// release or for the frame makes the selection rectangular.
pub fn release_facts<E, P, S>(
    event: E,
    event_mods: PointerMods,
    frame_mods: PointerMods,
    nearest: Option<S>,
) -> (f: PointerFacts<E, P, SelectionPoint<S>>)
    ensures
        f == (PointerFacts::<E, P, SelectionPoint<S>>::PrimaryRelease {
            event,
            clamped: with_shape(nearest, event_mods.alt || frame_mods.alt),
        }),
{
    PointerFacts::PrimaryRelease { event, clamped: shaped(nearest, event_mods.alt || frame_mods.alt) }
}

/// The events of the facts marked in `kept`, in order.
pub open spec fn kept_events<E, P, S>(facts: Seq<PointerFacts<E, P, S>>, kept: Seq<bool>) -> Seq<E>
    decreases facts.len(),
{
    if facts.len() == 0 || kept.len() == 0 {
        Seq::empty()
    } else {
        let rest = kept_events(facts.drop_last(), kept.drop_last());
        if kept.last() {
            rest.push(fact_event(facts.last()))
        } else {
            rest
        }
    }
}

/// The events that reach the terminal are the frame's events in their order, some left out:
/// only primary presses, moves and releases are ever withheld.
pub proof fn lemma_route_passes_a_subsequence<E, P, S>(
    r: SelectionRouter<P, S>,
    facts: Seq<PointerFacts<E, P, S>>,
    mouse_tracking: bool,
)
    ensures
        exists|kept: Seq<bool>|
            #![trigger kept_events(facts, kept)]
            {
                &&& kept.len() == facts.len()
                &&& selection_route(r, facts, mouse_tracking).1 == kept_events(facts, kept)
                &&& forall|i: int| 0 <= i < facts.len() && (#[trigger] facts[i]) is Other ==> kept[i]
            },
    decreases facts.len(),
{
    if facts.len() == 0 {
        let kept = Seq::<bool>::empty();
        assert(selection_route(r, facts, mouse_tracking).1 =~= kept_events(facts, kept));
        assert(forall|i: int| 0 <= i < facts.len() && (#[trigger] facts[i]) is Other ==> kept[i]);
    } else {
        let init = facts.drop_last();
        lemma_route_passes_a_subsequence(r, init, mouse_tracking);
        let kept0 = choose|kept: Seq<bool>|
            #![trigger kept_events(init, kept)]
            {
                &&& kept.len() == init.len()
                &&& selection_route(r, init, mouse_tracking).1 == kept_events(init, kept)
                &&& forall|i: int| 0 <= i < init.len() && (#[trigger] init[i]) is Other ==> kept[i]
            };
        let r1 = selection_route(r, init, mouse_tracking).0;
        let (_, e, _) = selection_step(r1, facts.last(), mouse_tracking);
        let kept = kept0.push(e is Some);
        assert(kept.drop_last() =~= kept0);
        assert(e matches Some(ev) ==> ev == fact_event(facts.last()));
        assert(facts.last() is Other ==> e is Some);
        assert(selection_route(r, facts, mouse_tracking).1 == kept_events(facts, kept));
        assert forall|i: int| 0 <= i < facts.len() && (#[trigger] facts[i]) is Other implies kept[i] by {
            if i < facts.len() - 1 {
                assert(init[i] == facts[i]);
            }
        }
        assert(kept.len() == facts.len());
    }
}

} // verus!
