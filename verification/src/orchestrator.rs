use vstd::prelude::*;

verus! {

/// What an operation captured from the focused field.
#[derive(Debug, Clone, PartialEq, Eq)]
pub struct OperationSnapshot {
    pub operation_id: u64,
    pub app_id: String,
    pub window_id: Option<String>,
    pub extracted_text: String,
    pub replacement_target_text: String,
    pub transform_input: String,
    pub trigger_text: String,
}

/// A snapshot with its texts taken as character sequences.
pub struct SnapshotView {
    pub operation_id: u64,
    pub app_id: Seq<char>,
    pub window_id: Option<Seq<char>>,
    pub extracted_text: Seq<char>,
    pub replacement_target_text: Seq<char>,
    pub transform_input: Seq<char>,
    pub trigger_text: Seq<char>,
}

impl View for OperationSnapshot {
    type V = SnapshotView;

    open spec fn view(&self) -> SnapshotView {
        SnapshotView {
            operation_id: self.operation_id,
            app_id: self.app_id@,
            window_id: crate::text::opt_text(self.window_id),
            extracted_text: self.extracted_text@,
            replacement_target_text: self.replacement_target_text@,
            transform_input: self.transform_input@,
            trigger_text: self.trigger_text@,
        }
    }
}

impl OperationSnapshot {
    /// An equal copy.
    pub fn duplicate(&self) -> (s: OperationSnapshot)
        ensures
            s@ == self@,
    {
        OperationSnapshot {
            operation_id: self.operation_id,
            app_id: self.app_id.clone(),
            window_id: crate::text::copy_opt_text(&self.window_id),
            extracted_text: self.extracted_text.clone(),
            replacement_target_text: self.replacement_target_text.clone(),
            transform_input: self.transform_input.clone(),
            trigger_text: self.trigger_text.clone(),
        }
    }
}

/// The phase of the one operation the orchestrator may have in flight.
#[derive(Debug, Clone, Copy, PartialEq, Eq, Structural)]
pub enum OperationPhase {
    Idle,
    Extracting,
    Transforming,
    Replacing,
    Verifying,
}

#[derive(Debug, Clone, Copy, PartialEq, Eq, Structural)]
pub enum OrchestratorError {
    /// An operation is already in flight.
    Busy,
    /// The requested step does not follow the current phase.
    InvalidTransition,
    /// The snapshot belongs to another operation.
    OperationMismatch,
    /// Every operation id has been handed out.
    OperationIdsExhausted,
}

/// The orchestrator's state as plain values.
pub struct OrchestratorView {
    pub phase: OperationPhase,
    pub active_operation_id: Option<u64>,
    pub next_operation_id: u64,
    /// The snapshot of the operation in flight, once extraction completed.
    pub snapshot: Option<SnapshotView>,
}

/// Serialises operations: at most one is in flight, and it goes through
/// extraction, transformation, replacement and verification in that order.
#[derive(Debug, Clone)]
pub struct OperationOrchestrator {
    phase: OperationPhase,
    active_operation_id: Option<u64>,
    next_operation_id: u64,
    snapshot: Option<OperationSnapshot>,
}

/// The phases in which the operation's snapshot is known.
pub open spec fn extracted_phase(p: OperationPhase) -> bool {
    p == OperationPhase::Transforming || p == OperationPhase::Replacing || p
        == OperationPhase::Verifying
}

pub open spec fn idle_view(next: u64) -> OrchestratorView {
    OrchestratorView {
        phase: OperationPhase::Idle,
        active_operation_id: None,
        next_operation_id: next,
        snapshot: None,
    }
}

/// `begin_static_extraction` on state `s`: the new state and the result.
pub open spec fn begin_step(s: OrchestratorView) -> (OrchestratorView, Result<u64, OrchestratorError>) {
    if s.phase != OperationPhase::Idle {
        (s, Err(OrchestratorError::Busy))
    } else if s.next_operation_id == u64::MAX {
        (s, Err(OrchestratorError::OperationIdsExhausted))
    } else {
        (
            OrchestratorView {
                phase: OperationPhase::Extracting,
                active_operation_id: Some(s.next_operation_id),
                next_operation_id: (s.next_operation_id + 1) as u64,
                snapshot: None,
            },
            Ok(s.next_operation_id),
        )
    }
}

/// `complete_extraction` of `snapshot` on state `s`.
pub open spec fn complete_extraction_step(s: OrchestratorView, snapshot: SnapshotView) -> (
    OrchestratorView,
    Result<(), OrchestratorError>,
) {
    if s.phase != OperationPhase::Extracting {
        (s, Err(OrchestratorError::InvalidTransition))
    } else if s.active_operation_id != Some(snapshot.operation_id) {
        (s, Err(OrchestratorError::OperationMismatch))
    } else {
        (
            OrchestratorView {
                phase: OperationPhase::Transforming,
                snapshot: Some(snapshot),
                ..s
            },
            Ok(()),
        )
    }
}

/// A step that moves from phase `from` to phase `to`.
pub open spec fn advance_step(s: OrchestratorView, from: OperationPhase, to: OperationPhase) -> (
    OrchestratorView,
    Result<(), OrchestratorError>,
) {
    if s.phase != from {
        (s, Err(OrchestratorError::InvalidTransition))
    } else {
        (OrchestratorView { phase: to, ..s }, Ok(()))
    }
}

/// `complete` on state `s`: a verified operation ends and the orchestrator is idle.
pub open spec fn complete_step(s: OrchestratorView) -> (
    OrchestratorView,
    Result<(), OrchestratorError>,
) {
    if s.phase != OperationPhase::Verifying {
        (s, Err(OrchestratorError::InvalidTransition))
    } else {
        (idle_view(s.next_operation_id), Ok(()))
    }
}

impl View for OperationOrchestrator {
    type V = OrchestratorView;

    closed spec fn view(&self) -> OrchestratorView {
        OrchestratorView {
            phase: self.phase,
            active_operation_id: self.active_operation_id,
            next_operation_id: self.next_operation_id,
            snapshot: match self.snapshot {
                Some(s) => Some(s@),
                None => None,
            },
        }
    }
}

impl OperationOrchestrator {
    /// The orchestrator is idle exactly when no operation is active, and it
    /// holds the snapshot of the active operation once extraction completed.
    pub open spec fn well_formed(&self) -> bool {
        &&& (self@.phase == OperationPhase::Idle <==> self@.active_operation_id is None)
        &&& (self@.active_operation_id matches Some(id) ==> id < self@.next_operation_id)
        &&& (self@.snapshot is Some <==> extracted_phase(self@.phase))
        &&& (self@.snapshot matches Some(s) ==> self@.active_operation_id == Some(s.operation_id))
    }

    pub fn new() -> (o: OperationOrchestrator)
        ensures
            o@ == idle_view(1),
            o.well_formed(),
    {
        OperationOrchestrator {
            phase: OperationPhase::Idle,
            active_operation_id: None,
            next_operation_id: 1,
            snapshot: None,
        }
    }

    pub fn phase(&self) -> (p: OperationPhase)
        ensures
            p == self@.phase,
    {
        self.phase
    }

    pub fn active_operation_id(&self) -> (id: Option<u64>)
        ensures
            id == self@.active_operation_id,
    {
        self.active_operation_id
    }

    /// The snapshot of the operation in flight, once extraction has completed.
    pub fn snapshot(&self) -> (s: Option<&OperationSnapshot>)
        requires
            self.well_formed(),
        ensures
            s is Some <==> extracted_phase(self@.phase),
            s matches Some(snapshot) ==> self@.snapshot == Some(snapshot@)
                && self@.active_operation_id == Some(snapshot.operation_id),
    {
        self.snapshot.as_ref()
    }

    /// Starts a new operation and hands out its id.
    pub fn begin_static_extraction(&mut self) -> (r: Result<u64, OrchestratorError>)
        requires
            old(self).well_formed(),
        ensures
            (final(self)@, r) == begin_step(old(self)@),
            final(self).well_formed(),
    {
        if self.phase != OperationPhase::Idle {
            return Err(OrchestratorError::Busy);
        }
        if self.next_operation_id == u64::MAX {
            return Err(OrchestratorError::OperationIdsExhausted);
        }
        let id = self.next_operation_id;
        self.next_operation_id = id + 1;
        self.phase = OperationPhase::Extracting;
        self.active_operation_id = Some(id);
        Ok(id)
    }

    /// Records the snapshot of the operation in flight.
    pub fn complete_extraction(&mut self, snapshot: OperationSnapshot) -> (r: Result<
        (),
        OrchestratorError,
    >)
        requires
            old(self).well_formed(),
        ensures
            (final(self)@, r) == complete_extraction_step(old(self)@, snapshot@),
            final(self).well_formed(),
    {
        if self.phase != OperationPhase::Extracting {
            return Err(OrchestratorError::InvalidTransition);
        }
        match self.active_operation_id {
            Some(id) => {
                if id != snapshot.operation_id {
                    return Err(OrchestratorError::OperationMismatch);
                }
            },
            None => {
                return Err(OrchestratorError::OperationMismatch);
            },
        }
        self.phase = OperationPhase::Transforming;
        self.snapshot = Some(snapshot);
        Ok(())
    }

    pub fn begin_replacement(&mut self) -> (r: Result<(), OrchestratorError>)
        requires
            old(self).well_formed(),
        ensures
            (final(self)@, r) == advance_step(
                old(self)@,
                OperationPhase::Transforming,
                OperationPhase::Replacing,
            ),
            final(self).well_formed(),
    {
        if self.phase != OperationPhase::Transforming {
            return Err(OrchestratorError::InvalidTransition);
        }
        self.phase = OperationPhase::Replacing;
        Ok(())
    }

    pub fn begin_verification(&mut self) -> (r: Result<(), OrchestratorError>)
        requires
            old(self).well_formed(),
        ensures
            (final(self)@, r) == advance_step(
                old(self)@,
                OperationPhase::Replacing,
                OperationPhase::Verifying,
            ),
            final(self).well_formed(),
    {
        if self.phase != OperationPhase::Replacing {
            return Err(OrchestratorError::InvalidTransition);
        }
        self.phase = OperationPhase::Verifying;
        Ok(())
    }

    pub fn complete(&mut self) -> (r: Result<(), OrchestratorError>)
        requires
            old(self).well_formed(),
        ensures
            (final(self)@, r) == complete_step(old(self)@),
            final(self).well_formed(),
    {
        if self.phase != OperationPhase::Verifying {
            return Err(OrchestratorError::InvalidTransition);
        }
        self.phase = OperationPhase::Idle;
        self.active_operation_id = None;
        self.snapshot = None;
        Ok(())
    }

    /// Abandons the operation in flight, if any.
    pub fn fail(&mut self)
        requires
            old(self).well_formed(),
        ensures
            final(self)@ == idle_view(old(self)@.next_operation_id),
            final(self).well_formed(),
    {
        self.phase = OperationPhase::Idle;
        self.active_operation_id = None;
        self.snapshot = None;
    }
}

/// An operation that goes through every step without error leaves the
/// orchestrator idle again, with the next id one past the id it handed out.
pub proof fn lemma_successful_operation_returns_to_idle(s: OrchestratorView, snapshot: SnapshotView)
    requires
        s.phase == OperationPhase::Idle,
        s.next_operation_id < u64::MAX,
        snapshot.operation_id == s.next_operation_id,
    ensures
        ({
            let (s1, id) = begin_step(s);
            let (s2, r2) = complete_extraction_step(s1, snapshot);
            let (s3, r3) = advance_step(s2, OperationPhase::Transforming, OperationPhase::Replacing);
            let (s4, r4) = advance_step(s3, OperationPhase::Replacing, OperationPhase::Verifying);
            let (s5, r5) = complete_step(s4);
            &&& id == Ok::<u64, OrchestratorError>(s.next_operation_id)
            &&& r2 is Ok && r3 is Ok && r4 is Ok && r5 is Ok
            &&& s5 == idle_view((s.next_operation_id + 1) as u64)
        }),
{
}

/// While an operation is in flight no second one can start, and the state is
/// left as it was.
pub proof fn lemma_busy_refuses_new_operation(s: OrchestratorView)
    requires
        s.phase != OperationPhase::Idle,
    ensures
        begin_step(s) == (s, Err::<u64, OrchestratorError>(OrchestratorError::Busy)),
{
}

/// Operation ids only grow: every id handed out is smaller than every id
/// handed out after it.
pub proof fn lemma_ids_increase(s: OrchestratorView, later: OrchestratorView)
    requires
        begin_step(s).1 is Ok,
        later.next_operation_id >= begin_step(s).0.next_operation_id,
        begin_step(later).1 is Ok,
    ensures
        begin_step(s).1->Ok_0 < begin_step(later).1->Ok_0,
{
}

} // verus!
