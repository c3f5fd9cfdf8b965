use vstd::prelude::*;

use super::guard::{SyntheticInputGuard, SyntheticInputGuardToken};

verus! {

#[derive(Debug, Clone, Copy, PartialEq, Eq, Structural)]
pub enum InputSimulationError {
    Unavailable,
    Blocked,
}

/// Generates keyboard input in the focused application.
pub trait InputSimulator {
    fn select_all(&mut self) -> Result<(), InputSimulationError>;

    fn copy(&mut self) -> Result<(), InputSimulationError>;

    fn paste(&mut self) -> Result<(), InputSimulationError>;

    fn type_text(&mut self, text: &str) -> Result<(), InputSimulationError>;

    fn collapse_selection(&mut self) -> Result<(), InputSimulationError>;

    /// Gives the focused application `duration_ms` milliseconds to catch up
    /// with the input generated so far. Simulators that act at once need not wait.
    fn pause(&mut self, duration_ms: u64) {
    }
}

/// One call that a guarded simulator passed on to its inner simulator, with
/// what it handed over and what came back, or one step of its guard.
pub enum ForwardedCall {
    SelectAll { result: Result<(), InputSimulationError> },
    Copy { result: Result<(), InputSimulationError> },
    Paste { result: Result<(), InputSimulationError> },
    TypeText { text: Seq<char>, result: Result<(), InputSimulationError> },
    CollapseSelection { result: Result<(), InputSimulationError> },
    Pause { duration_ms: u64 },
    /// The guard was acquired at `at` for the operation with this id.
    GuardAcquired { at: u64, operation_id: u64 },
    /// The guard was released at `at` for the operation with this id.
    GuardReleased { at: u64, operation_id: u64 },
}

/// The input simulator was asked to wait `duration_ms` milliseconds.
pub open spec fn paused<I: InputSimulator>(duration_ms: u64) -> bool {
    exists|x: &mut I| call_ensures(I::pause, (x, duration_ms), ())
}

/// `at` is a reading of the clock of `guard`.
pub open spec fn read_clock(guard: SyntheticInputGuard, at: u64) -> bool {
    call_ensures(SyntheticInputGuard::now, (&guard,), at)
}

/// `guard` was acquired at `at` and handed out a token for `operation_id`.
pub open spec fn acquired(guard: SyntheticInputGuard, at: u64, operation_id: u64) -> bool {
    exists|t: SyntheticInputGuardToken|
        call_ensures(SyntheticInputGuard::acquire, (&guard, at), t) && t.id() == operation_id
}

/// A token for `operation_id` was released at `at`.
pub open spec fn released(at: u64, operation_id: u64) -> bool {
    exists|t: SyntheticInputGuardToken|
        call_ensures(SyntheticInputGuardToken::release, (t, at), ()) && t.id() == operation_id
}

/// The recorded step was made: the guard step on `guard`, at a time read
/// from its clock, or the inner simulator's method on the recorded
/// arguments, which returned the recorded result.
pub open spec fn forwarded_call_made<I: InputSimulator>(
    guard: SyntheticInputGuard,
    call: ForwardedCall,
) -> bool {
    match call {
        ForwardedCall::SelectAll { result } => exists|x: &mut I|
            call_ensures(I::select_all, (x,), result),
        ForwardedCall::Copy { result } => exists|x: &mut I| call_ensures(I::copy, (x,), result),
        ForwardedCall::Paste { result } => exists|x: &mut I| call_ensures(I::paste, (x,), result),
        ForwardedCall::TypeText { text, result } => exists|x: &mut I, t: &str|
            call_ensures(I::type_text, (x, t), result) && t@ == text,
        ForwardedCall::CollapseSelection { result } => exists|x: &mut I|
            call_ensures(I::collapse_selection, (x,), result),
        ForwardedCall::Pause { duration_ms } => paused::<I>(duration_ms),
        ForwardedCall::GuardAcquired { at, operation_id } => read_clock(guard, at) && acquired(
            guard,
            at,
            operation_id,
        ),
        ForwardedCall::GuardReleased { at, operation_id } => read_clock(guard, at) && released(
            at,
            operation_id,
        ),
    }
}

/// Every step recorded from index `k` on was made.
pub open spec fn forwarded_calls_made_from<I: InputSimulator>(
    guard: SyntheticInputGuard,
    d: Seq<ForwardedCall>,
    k: int,
) -> bool {
    forall|i: int| 0 <= i && k <= i < d.len() ==> forwarded_call_made::<I>(guard, #[trigger] d[i])
}

/// `after` is `before` followed by one call passed on while the guard was
/// held: the guard acquired for some operation, the call, and the guard
/// released for that same operation.
pub open spec fn guarded_call(
    before: Seq<ForwardedCall>,
    after: Seq<ForwardedCall>,
    call: ForwardedCall,
) -> bool {
    &&& after.len() == before.len() + 3
    &&& after.take(before.len() as int) == before
    &&& after[before.len() + 1int] == call
    &&& after[before.len() as int] matches ForwardedCall::GuardAcquired { operation_id, .. }
        && after[before.len() + 2int] matches ForwardedCall::GuardReleased {
        operation_id: released_id,
        ..
    } && released_id == operation_id
}

/// A simulator whose generated input the guard marks as synthetic.
pub struct GuardedInputSimulator<I> {
    inner: I,
    guard: SyntheticInputGuard,
    calls: Ghost<Seq<ForwardedCall>>,
}

impl<I> GuardedInputSimulator<I> {
    pub fn new(inner: I, guard: SyntheticInputGuard) -> (s: GuardedInputSimulator<I>)
        ensures
            s.inner() == inner,
            s.guard() == guard,
            s.calls() == Seq::<ForwardedCall>::empty(),
    {
        GuardedInputSimulator { inner, guard, calls: Ghost(Seq::empty()) }
    }

    pub closed spec fn inner(&self) -> I {
        self.inner
    }

    /// The guard that marks this simulator's input as synthetic.
    pub closed spec fn guard(&self) -> SyntheticInputGuard {
        self.guard
    }

    /// The calls passed on to the inner simulator so far, in order.
    pub closed spec fn calls(&self) -> Seq<ForwardedCall> {
        self.calls@
    }

    pub fn into_inner(self) -> (i: I)
        ensures
            i == self.inner(),
    {
        self.inner
    }

    fn record(&mut self, call: Ghost<ForwardedCall>)
        ensures
            final(self).calls() == old(self).calls().push(call@),
            final(self).guard() == old(self).guard(),
    {
        self.calls = Ghost(self.calls@.push(call@));
    }
}

/// Each action holds the guard while the inner simulator performs it, and
/// gives back the inner simulator's result.
impl<I: InputSimulator> InputSimulator for GuardedInputSimulator<I> {
    fn select_all(&mut self) -> (r: Result<(), InputSimulationError>)
        ensures
            guarded_call(old(self).calls(), final(self).calls(), ForwardedCall::SelectAll { result: r }),
            forwarded_calls_made_from::<I>(
                old(self).guard(),
                final(self).calls(),
                old(self).calls().len() as int,
            ),
            final(self).guard() == old(self).guard(),
    {
        let ghost before = self.calls@;
        let acquired_at = self.guard.now();
        let token = self.guard.acquire(acquired_at);
        let ghost operation_id = token.id();
        self.record(Ghost(ForwardedCall::GuardAcquired { at: acquired_at, operation_id }));
        let result = self.inner.select_all();
        self.record(Ghost(ForwardedCall::SelectAll { result }));
        let released_at = self.guard.now();
        token.release(released_at);
        self.record(Ghost(ForwardedCall::GuardReleased { at: released_at, operation_id }));
        proof {
            assert(self.calls@.take(before.len() as int) =~= before);
        }
        result
    }

    fn copy(&mut self) -> (r: Result<(), InputSimulationError>)
        ensures
            guarded_call(old(self).calls(), final(self).calls(), ForwardedCall::Copy { result: r }),
            forwarded_calls_made_from::<I>(
                old(self).guard(),
                final(self).calls(),
                old(self).calls().len() as int,
            ),
            final(self).guard() == old(self).guard(),
    {
        let ghost before = self.calls@;
        let acquired_at = self.guard.now();
        let token = self.guard.acquire(acquired_at);
        let ghost operation_id = token.id();
        self.record(Ghost(ForwardedCall::GuardAcquired { at: acquired_at, operation_id }));
        let result = self.inner.copy();
        self.record(Ghost(ForwardedCall::Copy { result }));
        let released_at = self.guard.now();
        token.release(released_at);
        self.record(Ghost(ForwardedCall::GuardReleased { at: released_at, operation_id }));
        proof {
            assert(self.calls@.take(before.len() as int) =~= before);
        }
        result
    }

    fn paste(&mut self) -> (r: Result<(), InputSimulationError>)
        ensures
            guarded_call(old(self).calls(), final(self).calls(), ForwardedCall::Paste { result: r }),
            forwarded_calls_made_from::<I>(
                old(self).guard(),
                final(self).calls(),
                old(self).calls().len() as int,
            ),
            final(self).guard() == old(self).guard(),
    {
        let ghost before = self.calls@;
        let acquired_at = self.guard.now();
        let token = self.guard.acquire(acquired_at);
        let ghost operation_id = token.id();
        self.record(Ghost(ForwardedCall::GuardAcquired { at: acquired_at, operation_id }));
        let result = self.inner.paste();
        self.record(Ghost(ForwardedCall::Paste { result }));
        let released_at = self.guard.now();
        token.release(released_at);
        self.record(Ghost(ForwardedCall::GuardReleased { at: released_at, operation_id }));
        proof {
            assert(self.calls@.take(before.len() as int) =~= before);
        }
        result
    }

    fn type_text(&mut self, text: &str) -> (r: Result<(), InputSimulationError>)
        ensures
            guarded_call(old(self).calls(), final(self).calls(), ForwardedCall::TypeText { text: text@, result: r }),
            forwarded_calls_made_from::<I>(
                old(self).guard(),
                final(self).calls(),
                old(self).calls().len() as int,
            ),
            final(self).guard() == old(self).guard(),
    {
        let ghost before = self.calls@;
        let acquired_at = self.guard.now();
        let token = self.guard.acquire(acquired_at);
        let ghost operation_id = token.id();
        self.record(Ghost(ForwardedCall::GuardAcquired { at: acquired_at, operation_id }));
        let result = self.inner.type_text(text);
        self.record(Ghost(ForwardedCall::TypeText { text: text@, result }));
        let released_at = self.guard.now();
        token.release(released_at);
        self.record(Ghost(ForwardedCall::GuardReleased { at: released_at, operation_id }));
        proof {
            assert(self.calls@.take(before.len() as int) =~= before);
        }
        result
    }

    fn collapse_selection(&mut self) -> (r: Result<(), InputSimulationError>)
        ensures
            guarded_call(old(self).calls(), final(self).calls(), ForwardedCall::CollapseSelection { result: r }),
            forwarded_calls_made_from::<I>(
                old(self).guard(),
                final(self).calls(),
                old(self).calls().len() as int,
            ),
            final(self).guard() == old(self).guard(),
    {
        let ghost before = self.calls@;
        let acquired_at = self.guard.now();
        let token = self.guard.acquire(acquired_at);
        let ghost operation_id = token.id();
        self.record(Ghost(ForwardedCall::GuardAcquired { at: acquired_at, operation_id }));
        let result = self.inner.collapse_selection();
        self.record(Ghost(ForwardedCall::CollapseSelection { result }));
        let released_at = self.guard.now();
        token.release(released_at);
        self.record(Ghost(ForwardedCall::GuardReleased { at: released_at, operation_id }));
        proof {
            assert(self.calls@.take(before.len() as int) =~= before);
        }
        result
    }

    fn pause(&mut self, duration_ms: u64)
        ensures
            final(self).calls() == old(self).calls().push(ForwardedCall::Pause { duration_ms }),
            forwarded_calls_made_from::<I>(
                old(self).guard(),
                final(self).calls(),
                old(self).calls().len() as int,
            ),
            final(self).guard() == old(self).guard(),
    {
        self.inner.pause(duration_ms);
        self.record(Ghost(ForwardedCall::Pause { duration_ms }));
    }
}

#[derive(Debug, Clone, PartialEq, Eq)]
pub enum RecordedInputAction {
    SelectAll,
    Copy,
    Paste,
    TypeText(String),
    CollapseSelection,
}

/// A simulator that records the actions it is asked for.
#[derive(Debug, Clone)]
pub struct RecordingInputSimulator {
    pub actions: Vec<RecordedInputAction>,
}

impl Default for RecordingInputSimulator {
    fn default() -> (s: RecordingInputSimulator)
        ensures
            s.actions@.len() == 0,
    {
        RecordingInputSimulator { actions: Vec::new() }
    }
}

impl InputSimulator for RecordingInputSimulator {
    fn select_all(&mut self) -> (r: Result<(), InputSimulationError>)
        ensures
            r is Ok,
            final(self).actions@ == old(self).actions@.push(RecordedInputAction::SelectAll),
    {
        self.actions.push(RecordedInputAction::SelectAll);
        Ok(())
    }

    fn copy(&mut self) -> (r: Result<(), InputSimulationError>)
        ensures
            r is Ok,
            final(self).actions@ == old(self).actions@.push(RecordedInputAction::Copy),
    {
        self.actions.push(RecordedInputAction::Copy);
        Ok(())
    }

    fn paste(&mut self) -> (r: Result<(), InputSimulationError>)
        ensures
            r is Ok,
            final(self).actions@ == old(self).actions@.push(RecordedInputAction::Paste),
    {
        self.actions.push(RecordedInputAction::Paste);
        Ok(())
    }

    fn type_text(&mut self, text: &str) -> (r: Result<(), InputSimulationError>)
        ensures
            r is Ok,
            final(self).actions@.len() == old(self).actions@.len() + 1,
            final(self).actions@.drop_last() == old(self).actions@,
            final(self).actions@.last() matches RecordedInputAction::TypeText(t) && t@ == text@,
    {
        self.actions.push(RecordedInputAction::TypeText(String::from_str(text)));
        Ok(())
    }

    fn collapse_selection(&mut self) -> (r: Result<(), InputSimulationError>)
        ensures
            r is Ok,
            final(self).actions@ == old(self).actions@.push(RecordedInputAction::CollapseSelection),
    {
        self.actions.push(RecordedInputAction::CollapseSelection);
        Ok(())
    }
}

} // verus!
