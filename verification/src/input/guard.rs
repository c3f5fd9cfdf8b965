use std::sync::{Arc, Mutex};
use std::time::Instant;

use crate::clock::{clock_reading, millis_since};
use vstd::prelude::*;

verus! {

#[verifier::external_type_specification]
#[verifier::external_body]
#[verifier::reject_recursive_types(T)]
pub struct ExMutex<T: ?Sized>(Mutex<T>);

/// The shared record of synthetic input: the operation that is generating
/// input right now, when it started, and until when input stays suppressed
/// after it ended. Times are milliseconds.
#[derive(Debug, Clone, Copy, PartialEq, Eq)]
pub struct GuardState {
    pub active_operation_id: Option<u64>,
    pub active_since: Option<u64>,
    pub suppress_until: Option<u64>,
    pub next_operation_id: u64,
}

/// `t + d` milliseconds, held at the largest representable time.
pub open spec fn later(t: u64, d: u64) -> u64 {
    if t + d > u64::MAX {
        u64::MAX
    } else {
        (t + d) as u64
    }
}

/// `now - since` milliseconds, or zero when `since` lies in the future.
pub open spec fn elapsed(since: u64, now: u64) -> u64 {
    if now >= since {
        (now - since) as u64
    } else {
        0
    }
}

impl GuardState {
    pub open spec fn initial() -> GuardState {
        GuardState {
            active_operation_id: None,
            active_since: None,
            suppress_until: None,
            next_operation_id: 1,
        }
    }

    /// Acquiring at `now`: the next id becomes the active operation.
    pub open spec fn acquired(self, now: u64) -> (GuardState, u64) {
        (
            GuardState {
                active_operation_id: Some(self.next_operation_id),
                active_since: Some(now),
                suppress_until: None,
                next_operation_id: if self.next_operation_id == u64::MAX {
                    0
                } else {
                    (self.next_operation_id + 1) as u64
                },
            },
            self.next_operation_id,
        )
    }

    /// The state after ending the active operation at `now`, which starts the
    /// grace window.
    pub open spec fn ended(self, now: u64, grace_window: u64) -> GuardState {
        GuardState {
            active_operation_id: None,
            active_since: None,
            suppress_until: Some(later(now, grace_window)),
            next_operation_id: self.next_operation_id,
        }
    }

    /// Checking at `now`: an operation active for longer than the watchdog
    /// timeout is ended first; input is suppressed while an operation is active
    /// and until the grace window has passed.
    pub open spec fn checked(self, now: u64, watchdog_timeout: u64, grace_window: u64) -> (
        GuardState,
        bool,
    ) {
        let s = if self.active_operation_id is Some && (self.active_since matches Some(since)
            && elapsed(since, now) > watchdog_timeout) {
            self.ended(now, grace_window)
        } else {
            self
        };
        (s, s.active_operation_id is Some || (s.suppress_until matches Some(until) && now <= until))
    }

    /// Releasing operation `id` at `now`: only the active operation ends.
    pub open spec fn released(self, id: u64, now: u64, grace_window: u64) -> GuardState {
        if self.active_operation_id == Some(id) {
            self.ended(now, grace_window)
        } else {
            self
        }
    }

    pub fn acquire(self, now: u64) -> (r: (GuardState, u64))
        ensures
            r == self.acquired(now),
    {
        let id = self.next_operation_id;
        let next = if id == u64::MAX {
            0
        } else {
            id + 1
        };
        (
            GuardState {
                active_operation_id: Some(id),
                active_since: Some(now),
                suppress_until: None,
                next_operation_id: next,
            },
            id,
        )
    }

    pub fn check(self, now: u64, watchdog_timeout: u64, grace_window: u64) -> (r: (
        GuardState,
        bool,
    ))
        ensures
            r == self.checked(now, watchdog_timeout, grace_window),
    {
        let mut s = self;
        if let (Some(since), Some(_)) = (s.active_since, s.active_operation_id) {
            if now.saturating_sub(since) > watchdog_timeout {
                s = GuardState {
                    active_operation_id: None,
                    active_since: None,
                    suppress_until: Some(now.saturating_add(grace_window)),
                    next_operation_id: s.next_operation_id,
                };
            }
        }
        let suppressed = match (s.active_operation_id, s.suppress_until) {
            (Some(_), _) => true,
            (None, Some(until)) => now <= until,
            (None, None) => false,
        };
        (s, suppressed)
    }

    pub fn release(self, id: u64, now: u64, grace_window: u64) -> (r: (GuardState, ()))
        ensures
            r.0 == self.released(id, now, grace_window),
    {
        match self.active_operation_id {
            Some(active) => {
                if active == id {
                    return (
                        GuardState {
                            active_operation_id: None,
                            active_since: None,
                            suppress_until: Some(now.saturating_add(grace_window)),
                            next_operation_id: self.next_operation_id,
                        },
                        (),
                    );
                }
            },
            None => {},
        }
        (self, ())
    }
}

/// A lock around the guard state (`Mutex::new`).
#[verifier::external_body]
fn new_lock(state: GuardState) -> Mutex<GuardState> {
    Mutex::new(state)
}

/// Another handle to the same shared state (`Arc::clone`).
#[verifier::external_body]
fn share(shared: &Arc<Mutex<GuardState>>) -> Arc<Mutex<GuardState>> {
    Arc::clone(shared)
}

/// Locks the shared state (`Mutex::lock`), replaces it by what `step` makes
/// of it and returns `step`'s result. A poisoned lock is taken over as it is.
/// Nothing is claimed of the state found there: other handles change it.
#[verifier::external_body]
fn update_shared<R, F: FnOnce(GuardState) -> (GuardState, R)>(
    shared: &Arc<Mutex<GuardState>>,
    step: F,
) -> (r: R)
    requires
        forall|s: GuardState| call_requires(step, (s,)),
    ensures
        exists|s: GuardState, t: GuardState| call_ensures(step, (s,), (t, r)),
{
    let mut state = shared.lock().unwrap_or_else(std::sync::PoisonError::into_inner);
    let (next, result) = step(*state);
    *state = next;
    result
}

/// Keeps the input that the application itself generates from being taken
/// for typing.
#[derive(Debug, Clone)]
pub struct SyntheticInputGuard {
    inner: Arc<Mutex<GuardState>>,
    grace_window: u64,
    watchdog_timeout: u64,
    clock_start: Instant,
}

/// Marks one operation that generates input; ended by `release`.
#[derive(Debug)]
pub struct SyntheticInputGuardToken {
    inner: Arc<Mutex<GuardState>>,
    operation_id: u64,
    grace_window: u64,
}

impl Default for SyntheticInputGuard {
    fn default() -> (g: SyntheticInputGuard)
        ensures
            g.grace() == 250,
            g.watchdog() == 10_000,
    {
        SyntheticInputGuard::new(250, 10_000)
    }
}

impl SyntheticInputGuard {
    pub closed spec fn grace(&self) -> u64 {
        self.grace_window
    }

    pub closed spec fn watchdog(&self) -> u64 {
        self.watchdog_timeout
    }

    /// A guard with nothing active; durations in milliseconds.
    pub fn new(grace_window: u64, watchdog_timeout: u64) -> (g: SyntheticInputGuard)
        ensures
            g.grace() == grace_window,
            g.watchdog() == watchdog_timeout,
    {
        SyntheticInputGuard {
            inner: Arc::new(
                new_lock(
                    GuardState {
                        active_operation_id: None,
                        active_since: None,
                        suppress_until: None,
                        next_operation_id: 1,
                    },
                ),
            ),
            grace_window,
            watchdog_timeout,
            clock_start: clock_reading(),
        }
    }

    /// The time on the guard's clock: milliseconds on the monotonic clock
    /// since the guard was made. Clones share it; the times handed to the
    /// guard and to the input controller are read from it.
    pub fn now(&self) -> u64 {
        millis_since(&self.clock_start)
    }

    /// Marks an operation that generates input as active from `now` on.
    /// The shared state is stepped by `GuardState::acquire`; which state it
    /// held, and so which id the token gets, is not known here: other handles
    /// to the same state change it.
    pub fn acquire(&self, now: u64) -> (t: SyntheticInputGuardToken)
        ensures
            t.grace() == self.grace(),
    {
        let step = (|s: GuardState| -> (r: (GuardState, u64))
            ensures
                r == s.acquired(now),
            { s.acquire(now) });
        let operation_id = update_shared(&self.inner, step);
        SyntheticInputGuardToken {
            inner: share(&self.inner),
            operation_id,
            grace_window: self.grace_window,
        }
    }

    /// Whether input at `now` is synthetic: an operation is active, or its
    /// grace window has not passed. An operation active for longer than the
    /// watchdog timeout is ended first. The shared state is stepped by
    /// `GuardState::check`; nothing is known here of the state it held, so
    /// nothing is claimed of the answer: other handles change that state.
    pub fn is_suppressed(&self, now: u64) -> bool {
        let watchdog_timeout = self.watchdog_timeout;
        let grace_window = self.grace_window;
        let step = (|s: GuardState| -> (r: (GuardState, bool))
            ensures
                r == s.checked(now, watchdog_timeout, grace_window),
            { s.check(now, watchdog_timeout, grace_window) });
        update_shared(&self.inner, step)
    }

    /// The grace window in milliseconds.
    pub fn grace_window(&self) -> (d: u64)
        ensures
            d == self.grace(),
    {
        self.grace_window
    }
}

impl SyntheticInputGuardToken {
    pub closed spec fn id(&self) -> u64 {
        self.operation_id
    }

    pub closed spec fn grace(&self) -> u64 {
        self.grace_window
    }

    pub fn operation_id(&self) -> (id: u64)
        ensures
            id == self.id(),
    {
        self.operation_id
    }

    /// Ends the operation at `now`, unless the watchdog or a later operation
    /// has ended it already.
    pub fn release(self, now: u64) {
        let id = self.operation_id;
        let grace_window = self.grace_window;
        update_shared(
            &self.inner,
            (|s: GuardState| -> (r: (GuardState, ()))
                ensures
                    r.0 == s.released(id, now, grace_window),
                { s.release(id, now, grace_window) }),
        );
    }
}

/// Right after an operation is acquired, input is suppressed at any later
/// check, even one after the watchdog timeout (the watchdog then opens the
/// grace window at the time of the check).
pub proof fn lemma_acquired_guard_suppresses(
    s: GuardState,
    start: u64,
    now: u64,
    watchdog_timeout: u64,
    grace_window: u64,
)
    ensures
        s.acquired(start).0.checked(now, watchdog_timeout, grace_window).1,
{
}

/// After the active operation is released at `end`, input is suppressed
/// exactly until the grace window has passed.
pub proof fn lemma_release_opens_grace_window(
    s: GuardState,
    start: u64,
    end: u64,
    now: u64,
    watchdog_timeout: u64,
    grace_window: u64,
)
    ensures
        ({
            let (a, id) = s.acquired(start);
            a.released(id, end, grace_window).checked(now, watchdog_timeout, grace_window).1
                == (now <= later(end, grace_window))
        }),
{
}

/// Releasing an operation that is no longer active changes nothing.
pub proof fn lemma_stale_release_is_ignored(s: GuardState, id: u64, now: u64, grace_window: u64)
    requires
        s.active_operation_id != Some(id),
    ensures
        s.released(id, now, grace_window) == s,
{
}

/// The watchdog ends an operation that has been active for longer than its
/// timeout, so a leaked token cannot suppress input for ever.
pub proof fn lemma_watchdog_ends_leaked_operation(
    s: GuardState,
    start: u64,
    now: u64,
    watchdog_timeout: u64,
    grace_window: u64,
)
    requires
        elapsed(start, now) > watchdog_timeout,
    ensures
        ({
            let c = s.acquired(start).0.checked(now, watchdog_timeout, grace_window).0;
            &&& c.active_operation_id is None
            &&& c.suppress_until == Some(later(now, grace_window))
        }),
{
}

/// A fresh guard suppresses nothing.
pub proof fn lemma_fresh_guard_suppresses_nothing(
    now: u64,
    watchdog_timeout: u64,
    grace_window: u64,
)
    ensures
        !GuardState::initial().checked(now, watchdog_timeout, grace_window).1,
{
}

} // verus!
