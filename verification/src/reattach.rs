//! Reconnecting a remote binding whose attach client went away. The sessions live on the
//! other host and outlive the connection, so a lost link is reconnected to rather than treated
//! as the pane ending; attempts back off, since the loss that ends one client usually ends the
//! next few too. Times are milliseconds on a monotonic clock.
use vstd::prelude::*;

verus! {

/// The wait before the first reconnect attempt, in milliseconds.
pub const FIRST_DELAY_MS: u64 = 500;

/// The longest wait between attempts, in milliseconds.
pub const MAX_DELAY_MS: u64 = 30000;

/// How long an attach client has to survive before its connection counts as established, in
/// milliseconds. A client that dies sooner is the same outage continuing.
pub const STABLE_AFTER_MS: u64 = 5000;

/// Two to the power `k`.
pub open spec fn pow2(k: nat) -> nat
    decreases k,
{
    if k == 0 {
        1
    } else {
        2 * pow2((k - 1) as nat)
    }
}

/// The wait before attempt number `attempts`: the first delay, doubled for each earlier attempt
/// (at most eight times), and never more than the longest wait.
pub open spec fn backoff_delay(attempts: u32) -> nat {
    let doublings: nat = if attempts == 0 {
        0
    } else if attempts - 1 > 8 {
        8
    } else {
        (attempts - 1) as nat
    };
    let delay: nat = (FIRST_DELAY_MS as nat) * pow2(doublings);
    if delay > MAX_DELAY_MS {
        MAX_DELAY_MS as nat
    } else {
        delay
    }
}

proof fn lemma_pow2_monotone(a: nat, b: nat)
    requires
        a <= b,
    ensures
        pow2(a) <= pow2(b),
        a < b ==> pow2(a) < pow2(b),
        pow2(a) >= 1,
    decreases b,
{
    if b > a {
        lemma_pow2_monotone(a, (b - 1) as nat);
    } else if a > 0 {
        lemma_pow2_monotone((a - 1) as nat, (a - 1) as nat);
    }
}

/// A remote binding's attach client is gone and Bootty waits to start the next one.
#[derive(Clone, Copy, Debug, PartialEq, Eq, Structural)]
pub struct RemoteReattach {
    /// When the next attempt is due.
    pub retry_at: u64,
    /// Which attempt this is, counting from one.
    pub attempts: u32,
    /// Set once the waiting is over and a new attach client has been asked for.
    pub started: bool,
}

/// Whether an attach client lived long enough for its connection to count as established.
pub open spec fn connection_lasted(attached_for: Option<u64>) -> bool {
    match attached_for {
        Some(elapsed) => elapsed >= STABLE_AFTER_MS,
        None => false,
    }
}

/// The attempt number after a client failure: one more than the previous attempt while the
/// outage continues (saturating), one again after a connection that lasted or with no
/// earlier attempt.
pub open spec fn next_attempt(previous: Option<RemoteReattach>, attached_for: Option<u64>) -> u32 {
    match previous {
        Some(previous) => if connection_lasted(attached_for) {
            1
        } else if previous.attempts == u32::MAX {
            u32::MAX
        } else {
            (previous.attempts + 1) as u32
        },
        None => 1,
    }
}

impl RemoteReattach {
    /// The wait before attempt number `attempts`, in milliseconds.
    pub fn delay(attempts: u32) -> (r: u64)
        ensures
            r == backoff_delay(attempts),
    {
        let doublings: u32 = if attempts == 0 {
            0
        } else if attempts - 1 > 8 {
            8
        } else {
            attempts - 1
        };
        let mut delay: u64 = FIRST_DELAY_MS;
        let mut k: u32 = 0;
        while k < doublings
            invariant
                doublings <= 8,
                k <= doublings,
                delay == FIRST_DELAY_MS * pow2(k as nat),
            decreases doublings - k,
        {
            proof {
                lemma_pow2_monotone(k as nat, 8);
                assert(pow2(8) == 256) by { reveal_with_fuel(pow2, 9); }
            }
            delay = delay * 2;
            k = k + 1;
            assert(delay == FIRST_DELAY_MS * pow2(k as nat));
        }
        if delay > MAX_DELAY_MS {
            MAX_DELAY_MS
        } else {
            delay
        }
    }

    /// The reconnect plan after an attach client exits at `now`, having been attached for
    /// `attached_for` (when known), following the plan of the previous failure (if any).
    pub fn after_failure(previous: Option<Self>, attached_for: Option<u64>, now: u64) -> (r: Self)
        requires
            now + backoff_delay(next_attempt(previous, attached_for)) <= u64::MAX,
        ensures
            r.attempts == next_attempt(previous, attached_for),
            r.retry_at == now + backoff_delay(r.attempts),
            !r.started,
    {
        let established = match attached_for {
            Some(elapsed) => elapsed >= STABLE_AFTER_MS,
            None => false,
        };
        let attempts = match previous {
            Some(previous) if !established => previous.attempts.saturating_add(1),
            _ => 1,
        };
        let delay = Self::delay(attempts);
        proof {
            lemma_backoff_bounds(attempts, attempts);
        }
        RemoteReattach { retry_at: now + delay, attempts, started: false }
    }

    /// Whether the wait is over and no new client has been asked for yet.
    pub fn due(self, now: u64) -> (r: bool)
        ensures
            r == (!self.started && now >= self.retry_at),
    {
        !self.started && now >= self.retry_at
    }
}

/// The backoff never shrinks as attempts accumulate, never exceeds the longest wait and never
/// undercuts the first delay; it strictly grows until it reaches the longest wait.
pub proof fn lemma_backoff_bounds(a: u32, b: u32)
    requires
        a <= b,
    ensures
        FIRST_DELAY_MS <= backoff_delay(a) <= backoff_delay(b) <= MAX_DELAY_MS,
        1 <= a < b && backoff_delay(a) < MAX_DELAY_MS ==> backoff_delay(a) < backoff_delay(b),
{
    let da: nat = if a == 0 {
        0
    } else if a - 1 > 8 {
        8
    } else {
        (a - 1) as nat
    };
    let db: nat = if b == 0 {
        0
    } else if b - 1 > 8 {
        8
    } else {
        (b - 1) as nat
    };
    lemma_pow2_monotone(da, db);
    lemma_pow2_monotone(0, da);
    if a < b && backoff_delay(a) < MAX_DELAY_MS && a >= 1 {
        if a - 1 >= 8 {
            assert(pow2(8) == 256) by {
                reveal_with_fuel(pow2, 9);
            }
        }
    }
}

/// A reconnect plan that keeps failing counts its attempts up one at a time, and a connection
/// that lasted starts the count over.
pub proof fn lemma_backoff_resets_after_stable_connection(
    previous: RemoteReattach,
    attached_for: u64,
)
    ensures
        attached_for >= STABLE_AFTER_MS ==> next_attempt(Some(previous), Some(attached_for)) == 1,
        attached_for < STABLE_AFTER_MS && previous.attempts < u32::MAX ==> next_attempt(
            Some(previous),
            Some(attached_for),
        ) == previous.attempts + 1,
{
}

/// What to do about the binding's pane after its attach client exited.
#[derive(Clone, Copy, Debug, PartialEq, Eq, Structural)]
pub enum ClientExitOutcome {
    /// A local binding: the pane the client showed has ended, so close it.
    ClosePane,
    /// A remote binding: reconnect, this being the given attempt.
    Reconnect { attempt: u32 },
    /// A reconnect is already waiting to start; nothing changes.
    AlreadyWaiting,
}

/// How long the client that just exited had been attached, when its start is known (a start
/// after `now` counts as no time).
pub open spec fn attached_span(attach_started: Option<u64>, now: u64) -> Option<u64> {
    match attach_started {
        Some(started) => Some(if now >= started {
            (now - started) as u64
        } else {
            0u64
        }),
        None => None,
    }
}

/// What the frame loop has to do about a pending reconnect.
#[derive(Clone, Copy, Debug, PartialEq, Eq, Structural)]
pub enum ReattachPoll {
    /// Nothing is pending.
    Idle,
    /// Wait, and wake the frame loop after this many milliseconds.
    WaitFor(u64),
    /// A new client was asked for and is still starting; nothing to do.
    Starting,
    /// The wait is over: drop the dead client so the pane sync starts a new one.
    StartNow,
}

/// The reconnect bookkeeping of the active binding.
#[derive(Clone, Copy, Debug, PartialEq, Eq, Structural)]
pub struct ReattachState {
    /// Set while a remote binding's attach client is gone or being replaced.
    pub reattach: Option<RemoteReattach>,
    /// When the current remote attach client was asked for.
    pub attach_started: Option<u64>,
}

impl ReattachState {
    pub fn new() -> (r: Self)
        ensures
            r.reattach is None,
            r.attach_started is None,
    {
        ReattachState { reattach: None, attach_started: None }
    }

    /// The attach client exited at `now`. A local binding's pane closes; a remote one
    /// reconnects, unless a reconnect is already waiting to start.
    pub fn on_client_exit(&mut self, now: u64, remote: bool) -> (r: ClientExitOutcome)
        requires
            remote && !(old(self).reattach matches Some(p) && !p.started) ==> now + backoff_delay(
                next_attempt(old(self).reattach, attached_span(old(self).attach_started, now)),
            ) <= u64::MAX,
        ensures
            final(self).attach_started == old(self).attach_started,
            !remote ==> r == ClientExitOutcome::ClosePane && *final(self) == *old(self),
            remote && (old(self).reattach matches Some(p) && !p.started) ==> r
                == ClientExitOutcome::AlreadyWaiting && *final(self) == *old(self),
            remote && !(old(self).reattach matches Some(p) && !p.started) ==> {
                let attached_for = match old(self).attach_started {
                    Some(started) => Some(if now >= started {
                        (now - started) as u64
                    } else {
                        0u64
                    }),
                    None => None,
                };
                let attempt = next_attempt(old(self).reattach, attached_for);
                &&& r == ClientExitOutcome::Reconnect { attempt }
                &&& final(self).reattach == Some(
                    RemoteReattach {
                        retry_at: (now + backoff_delay(attempt)) as u64,
                        attempts: attempt,
                        started: false,
                    },
                )
            },
    {
        if !remote {
            return ClientExitOutcome::ClosePane;
        }
        match self.reattach {
            Some(pending) => {
                if !pending.started {
                    return ClientExitOutcome::AlreadyWaiting;
                }
            },
            None => {},
        }
        let attached_for = match self.attach_started {
            Some(started) => Some(
                if now >= started {
                    now - started
                } else {
                    0
                },
            ),
            None => None,
        };
        let reattach = RemoteReattach::after_failure(self.reattach, attached_for, now);
        self.reattach = Some(reattach);
        ClientExitOutcome::Reconnect { attempt: reattach.attempts }
    }

    /// The attach client is alive at `now`: once it has lasted, a started reconnect is over,
    /// so the next outage backs off from the beginning.
    pub fn on_client_alive(&mut self, now: u64)
        ensures
            final(self).attach_started == old(self).attach_started,
            final(self).reattach == if (old(self).attach_started matches Some(started) && now
                >= started && now - started >= STABLE_AFTER_MS) && (old(self).reattach matches Some(
                p,
            ) && p.started) {
                None
            } else {
                old(self).reattach
            },
    {
        let established = match self.attach_started {
            Some(started) => now >= started && now - started >= STABLE_AFTER_MS,
            None => false,
        };
        let started = match self.reattach {
            Some(pending) => pending.started,
            None => false,
        };
        if established && started {
            self.reattach = None;
        }
    }

    /// Drive a pending reconnect at `now`.
    pub fn poll(&mut self, now: u64) -> (r: ReattachPoll)
        ensures
            match old(self).reattach {
                None => r == ReattachPoll::Idle && *final(self) == *old(self),
                Some(p) => if p.started {
                    r == ReattachPoll::Starting && *final(self) == *old(self)
                } else if now >= p.retry_at {
                    &&& r == ReattachPoll::StartNow
                    &&& final(self).reattach == Some(RemoteReattach { started: true, ..p })
                    &&& final(self).attach_started == Some(now)
                } else {
                    r == ReattachPoll::WaitFor((p.retry_at - now) as u64) && *final(self)
                        == *old(self)
                },
            },
    {
        match self.reattach {
            None => ReattachPoll::Idle,
            Some(pending) => {
                if !pending.due(now) {
                    if !pending.started {
                        ReattachPoll::WaitFor(pending.retry_at - now)
                    } else {
                        ReattachPoll::Starting
                    }
                } else {
                    self.reattach = Some(RemoteReattach { started: true, ..pending });
                    self.attach_started = Some(now);
                    ReattachPoll::StartNow
                }
            },
        }
    }
}

} // verus!
