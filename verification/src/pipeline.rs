use vstd::prelude::*;

use crate::commands::{CommandDefinition, CommandRegistry, CommandView};
use crate::detection::{
    detect_trigger, detection, dynamic_detection, finalize_pending_dynamic, DecisionView,
    DetectionDecision, TriggerMatch, TriggerMatchView,
};
use crate::extraction::{
    snapshot_result, ContextView, ExtractionContext, ExtractionError, TextExtractor,
};
use crate::orchestrator::{
    idle_view, OperationOrchestrator, OperationPhase, OperationSnapshot, OrchestratorError,
    OrchestratorView, SnapshotView,
};
use crate::platform::{
    ForegroundApp, ForegroundAppView,
    ForegroundAppProvider, OperationGate, OperationGateDecision, PlatformContextError,
};
use crate::replacement::{ReplacementError, TextReplacer};
use crate::text::{chars_of, has_content, has_content_chars};

verus! {

#[derive(Debug, Clone, Copy, PartialEq, Eq, Structural)]
pub enum TransformError {
    ApiUnavailable,
    EmptyOutput,
    ProviderRejected,
}

/// Turns the input text into the replacement that a command asks for.
pub trait TextTransformer {
    fn transform(&mut self, command: &CommandDefinition, input: &str) -> Result<
        String,
        TransformError,
    >;
}

#[derive(Debug, Clone, Copy, PartialEq, Eq, Structural)]
pub enum PipelineError {
    Orchestrator(OrchestratorError),
    Extraction(ExtractionError),
    Transform(TransformError),
    Replacement(ReplacementError),
    Platform(PlatformContextError),
}

#[derive(Debug, Clone, PartialEq, Eq)]
pub enum PipelineOutcome {
    NoMatch,
    PendingDynamic,
    Blocked(OperationGateDecision),
    Replaced { trigger_text: String, replacement_text: String },
}

impl From<OrchestratorError> for PipelineError {
    fn from(error: OrchestratorError) -> (e: PipelineError) {
        PipelineError::Orchestrator(error)
    }
}

impl vstd::std_specs::convert::FromSpecImpl<OrchestratorError> for PipelineError {
    open spec fn obeys_from_spec() -> bool {
        true
    }

    open spec fn from_spec(error: OrchestratorError) -> PipelineError {
        PipelineError::Orchestrator(error)
    }
}

impl From<ExtractionError> for PipelineError {
    fn from(error: ExtractionError) -> (e: PipelineError) {
        PipelineError::Extraction(error)
    }
}

impl vstd::std_specs::convert::FromSpecImpl<ExtractionError> for PipelineError {
    open spec fn obeys_from_spec() -> bool {
        true
    }

    open spec fn from_spec(error: ExtractionError) -> PipelineError {
        PipelineError::Extraction(error)
    }
}

impl From<TransformError> for PipelineError {
    fn from(error: TransformError) -> (e: PipelineError) {
        PipelineError::Transform(error)
    }
}

impl vstd::std_specs::convert::FromSpecImpl<TransformError> for PipelineError {
    open spec fn obeys_from_spec() -> bool {
        true
    }

    open spec fn from_spec(error: TransformError) -> PipelineError {
        PipelineError::Transform(error)
    }
}

impl From<ReplacementError> for PipelineError {
    fn from(error: ReplacementError) -> (e: PipelineError) {
        PipelineError::Replacement(error)
    }
}

impl vstd::std_specs::convert::FromSpecImpl<ReplacementError> for PipelineError {
    open spec fn obeys_from_spec() -> bool {
        true
    }

    open spec fn from_spec(error: ReplacementError) -> PipelineError {
        PipelineError::Replacement(error)
    }
}

impl From<PlatformContextError> for PipelineError {
    fn from(error: PlatformContextError) -> (e: PipelineError) {
        PipelineError::Platform(error)
    }
}

impl vstd::std_specs::convert::FromSpecImpl<PlatformContextError> for PipelineError {
    open spec fn obeys_from_spec() -> bool {
        true
    }

    open spec fn from_spec(error: PlatformContextError) -> PipelineError {
        PipelineError::Platform(error)
    }
}

/// One call the pipeline made to its extractor, transformer or replacer,
/// with what it handed over and what came back.
pub enum CallRecord {
    Extract { context: ContextView, result: Result<SnapshotView, ExtractionError> },
    Transform { command: CommandView, input: Seq<char>, result: Result<Seq<char>, TransformError> },
    Replace {
        snapshot: SnapshotView,
        current: Seq<char>,
        replacement: Seq<char>,
        result: Result<(), ReplacementError>,
    },
    Foreground { result: Result<ForegroundAppView, PlatformContextError> },
}

/// The pipeline's state as plain values: its orchestrator and every call it
/// has made so far.
pub struct PipelineView {
    pub orchestrator: OrchestratorView,
    pub calls: Seq<CallRecord>,
}

pub open spec fn text_result(r: Result<String, TransformError>) -> Result<Seq<char>, TransformError> {
    match r {
        Ok(s) => Ok(s@),
        Err(e) => Err(e),
    }
}

/// The recorded call was made: a call of the extractor's, transformer's or
/// replacer's method, on the recorded arguments, returned the recorded
/// result. A provider's answer is tied to its call by `foreground_call_made`
/// instead.
pub open spec fn pipeline_call_made<E: TextExtractor, T: TextTransformer, R: TextReplacer>(
    call: CallRecord,
) -> bool {
    match call {
        CallRecord::Extract { context, result } => exists|
            x: &mut E,
            c: ExtractionContext,
            raw: Result<OperationSnapshot, ExtractionError>,
        |
            call_ensures(E::extract, (x, c), raw) && c@ == context && snapshot_result(raw)
                == result,
        CallRecord::Transform { command, input, result } => exists|
            x: &mut T,
            c: &CommandDefinition,
            i: &str,
            raw: Result<String, TransformError>,
        |
            call_ensures(T::transform, (x, c, i), raw) && c@ == command && i@ == input
                && text_result(raw) == result,
        CallRecord::Replace { snapshot, current, replacement, result } => exists|
            x: &mut R,
            s: &OperationSnapshot,
            c: &str,
            t: &str,
        |
            call_ensures(R::replace_current, (x, s, c, t), result) && s@ == snapshot && c@
                == current && t@ == replacement,
        CallRecord::Foreground { .. } => false,
    }
}

/// Every call recorded from index `k` on was made.
pub open spec fn pipeline_calls_made_from<E: TextExtractor, T: TextTransformer, R: TextReplacer>(
    d: Seq<CallRecord>,
    k: int,
) -> bool {
    forall|i: int| 0 <= i && k <= i < d.len() ==> pipeline_call_made::<E, T, R>(#[trigger] d[i])
}

/// The recorded call is the provider's answer, and a call of its
/// `foreground_app` returned it.
pub open spec fn foreground_call_made<P: ForegroundAppProvider>(call: CallRecord) -> bool {
    match call {
        CallRecord::Foreground { result } => exists|
            x: &mut P,
            raw: Result<ForegroundApp, PlatformContextError>,
        | call_ensures(P::foreground_app, (x,), raw) && app_result(raw) == result,
        _ => false,
    }
}

/// After a failed transformation of snapshot `s`: the field text is put back
/// in place of the progress text when one was shown, and nothing else is
/// called.
pub open spec fn restores(d: Seq<CallRecord>, shown: bool, current: Seq<char>, s: SnapshotView) -> bool {
    if shown {
        d.len() == 1 && match d[0] {
            CallRecord::Replace { snapshot, current: c, replacement, .. } => snapshot == s && c
                == current && replacement == s.replacement_target_text,
            _ => false,
        }
    } else {
        d.len() == 0
    }
}

/// The calls from the transformation on, with `current` the text the field
/// holds (the progress text when `shown`).
pub open spec fn transform_calls(
    d: Seq<CallRecord>,
    shown: bool,
    current: Seq<char>,
    s: SnapshotView,
    command: CommandView,
    r: Result<PipelineOutcome, PipelineError>,
) -> bool {
    d.len() >= 1 && match d[0] {
        CallRecord::Transform { command: c, input, result } => {
            &&& c == command
            &&& input == s.transform_input
            &&& match result {
                Err(e) => restores(d.skip(1), shown, current, s) && r
                    == Err::<PipelineOutcome, PipelineError>(PipelineError::Transform(e)),
                Ok(text) => if !has_content(text) {
                    restores(d.skip(1), shown, current, s) && r == Err::<
                        PipelineOutcome,
                        PipelineError,
                    >(PipelineError::Transform(TransformError::EmptyOutput))
                } else {
                    d.len() == 2 && match d[1] {
                        CallRecord::Replace {
                            snapshot,
                            current: cur,
                            replacement,
                            result: replaced,
                        } => {
                            &&& snapshot == s
                            &&& cur == current
                            &&& replacement == text
                            &&& match replaced {
                                Err(e) => r == Err::<PipelineOutcome, PipelineError>(
                                    PipelineError::Replacement(e),
                                ),
                                Ok(_) => match r {
                                    Ok(PipelineOutcome::Replaced { trigger_text, replacement_text }) => trigger_text@
                                        == s.trigger_text && replacement_text@ == text,
                                    _ => false,
                                },
                            }
                        },
                        _ => false,
                    }
                },
            }
        },
        _ => false,
    }
}

/// The calls after a successful extraction of snapshot `s`: with a progress
/// marker, the field text is first replaced by itself followed by a space and
/// the marker.
pub open spec fn extracted_calls(
    d: Seq<CallRecord>,
    marker: Option<Seq<char>>,
    s: SnapshotView,
    command: CommandView,
    r: Result<PipelineOutcome, PipelineError>,
) -> bool {
    match marker {
        Some(mark) => {
            let progress = s.replacement_target_text + seq![' '] + mark;
            d.len() >= 1 && match d[0] {
                CallRecord::Replace { snapshot, current, replacement, result } => {
                    &&& snapshot == s
                    &&& current == s.replacement_target_text
                    &&& replacement == progress
                    &&& match result {
                        Err(e) => d.len() == 1 && r == Err::<PipelineOutcome, PipelineError>(
                            PipelineError::Replacement(e),
                        ),
                        Ok(_) => transform_calls(d.skip(1), true, progress, s, command, r),
                    }
                },
                _ => false,
            }
        },
        None => transform_calls(d, false, s.replacement_target_text, s, command, r),
    }
}

/// All calls of one operation: extraction with `context` first.
pub open spec fn operation_calls(
    d: Seq<CallRecord>,
    marker: Option<Seq<char>>,
    context: ContextView,
    r: Result<PipelineOutcome, PipelineError>,
) -> bool {
    d.len() >= 1 && match d[0] {
        CallRecord::Extract { context: c, result } => {
            &&& c == context
            &&& match result {
                Err(e) => d.len() == 1 && r == Err::<PipelineOutcome, PipelineError>(
                    PipelineError::Extraction(e),
                ),
                Ok(s) => if s.operation_id != context.operation_id {
                    d.len() == 1 && r == Err::<PipelineOutcome, PipelineError>(
                        PipelineError::Orchestrator(OrchestratorError::OperationMismatch),
                    )
                } else {
                    extracted_calls(d.skip(1), marker, s, context.trigger_match.command, r)
                },
            }
        },
        _ => false,
    }
}

/// What running a matched trigger does. A busy orchestrator refuses and
/// nothing happens. Otherwise the next operation id is used, the calls of
/// one operation are made in order, and the orchestrator ends idle.
pub open spec fn match_effect(
    before: PipelineView,
    after: PipelineView,
    marker: Option<Seq<char>>,
    m: TriggerMatchView,
    app_id: Seq<char>,
    window_id: Option<Seq<char>>,
    r: Result<PipelineOutcome, PipelineError>,
) -> bool {
    let o = before.orchestrator;
    if o.phase != OperationPhase::Idle {
        after == before && r == Err::<PipelineOutcome, PipelineError>(
            PipelineError::Orchestrator(OrchestratorError::Busy),
        )
    } else if o.next_operation_id == u64::MAX {
        after == before && r == Err::<PipelineOutcome, PipelineError>(
            PipelineError::Orchestrator(OrchestratorError::OperationIdsExhausted),
        )
    } else {
        &&& after.orchestrator == idle_view((o.next_operation_id + 1) as u64)
        &&& before.calls.len() <= after.calls.len()
        &&& after.calls.take(before.calls.len() as int) == before.calls
        &&& operation_calls(
            after.calls.skip(before.calls.len() as int),
            marker,
            ContextView {
                operation_id: o.next_operation_id,
                app_id,
                window_id,
                trigger_match: m,
            },
            r,
        )
    }
}

/// What processing a buffer with detection decision `d` does: no match and a
/// pending dynamic trigger change nothing and call nothing; a match runs the
/// operation.
pub open spec fn buffer_effect(
    before: PipelineView,
    after: PipelineView,
    marker: Option<Seq<char>>,
    d: DecisionView,
    app_id: Seq<char>,
    window_id: Option<Seq<char>>,
    r: Result<PipelineOutcome, PipelineError>,
) -> bool {
    match d {
        DecisionView::NoMatch => after == before && r == Ok::<PipelineOutcome, PipelineError>(
            PipelineOutcome::NoMatch,
        ),
        DecisionView::PendingDynamic(_) => after == before && r == Ok::<
            PipelineOutcome,
            PipelineError,
        >(PipelineOutcome::PendingDynamic),
        DecisionView::Matched(m) => match_effect(before, after, marker, m, app_id, window_id, r),
    }
}

pub open spec fn app_result(r: Result<ForegroundApp, PlatformContextError>) -> Result<
    ForegroundAppView,
    PlatformContextError,
> {
    match r {
        Ok(app) => Ok(app@),
        Err(e) => Err(e),
    }
}

/// What processing a buffer for the focused application does. The provider
/// is asked first, and its answer recorded. When it cannot tell, its error is
/// returned; when `gate` does not allow the application, its decision is
/// returned. Either way nothing else changes and nothing else is called.
/// When `gate` allows it, the buffer is processed for that application.
pub open spec fn foreground_effect(
    before: PipelineView,
    after: PipelineView,
    marker: Option<Seq<char>>,
    d: DecisionView,
    gate: OperationGate,
    r: Result<PipelineOutcome, PipelineError>,
) -> bool {
    before.calls.len() < after.calls.len() && match after.calls[before.calls.len() as int] {
        CallRecord::Foreground { result } => {
            let asked = PipelineView {
                orchestrator: before.orchestrator,
                calls: before.calls.push(CallRecord::Foreground { result }),
            };
            match result {
                Err(e) => after == asked && r == Err::<PipelineOutcome, PipelineError>(
                    PipelineError::Platform(e),
                ),
                Ok(app) => if gate.decision_for(app) != OperationGateDecision::Allow {
                    after == asked && r == Ok::<PipelineOutcome, PipelineError>(
                        PipelineOutcome::Blocked(gate.decision_for(app)),
                    )
                } else {
                    buffer_effect(asked, after, marker, d, app.app_id, app.window_id, r)
                },
            }
        },
        _ => false,
    }
}

/// Detects triggers in typed text and runs the matched command: extract the
/// field, transform its text, replace it.
pub struct TransformationPipeline<E, T, R> {
    registry: CommandRegistry,
    orchestrator: OperationOrchestrator,
    extractor: E,
    transformer: T,
    replacer: R,
    progress_marker: Option<String>,
    calls: Ghost<Seq<CallRecord>>,
}

impl<E, T, R> TransformationPipeline<E, T, R> {
    pub closed spec fn registry_view(&self) -> Seq<CommandView> {
        self.registry@
    }

    pub closed spec fn orchestrator_view(&self) -> OrchestratorView {
        self.orchestrator@
    }

    pub closed spec fn state(&self) -> PipelineView {
        PipelineView { orchestrator: self.orchestrator@, calls: self.calls@ }
    }

    pub closed spec fn marker(&self) -> Option<Seq<char>> {
        crate::text::opt_text(self.progress_marker)
    }

    pub closed spec fn well_formed(&self) -> bool {
        self.orchestrator.well_formed()
    }

    pub proof fn lemma_state_orchestrator(&self)
        ensures
            self.state().orchestrator == self.orchestrator_view(),
    {
    }
}

impl<E: TextExtractor, T: TextTransformer, R: TextReplacer> TransformationPipeline<E, T, R> {
    pub fn new(registry: CommandRegistry, extractor: E, transformer: T, replacer: R) -> (p: Self)
        ensures
            p.registry_view() == registry@,
            p.state() == (PipelineView { orchestrator: idle_view(1), calls: Seq::empty() }),
            p.marker() is None,
            p.well_formed(),
    {
        TransformationPipeline {
            registry,
            orchestrator: OperationOrchestrator::new(),
            extractor,
            transformer,
            replacer,
            progress_marker: None,
            calls: Ghost(Seq::empty()),
        }
    }

    /// A pipeline that shows `progress_marker` after the field text while the
    /// transformation runs.
    pub fn with_progress_marker(
        registry: CommandRegistry,
        extractor: E,
        transformer: T,
        replacer: R,
        progress_marker: &str,
    ) -> (p: Self)
        ensures
            p.registry_view() == registry@,
            p.state() == (PipelineView { orchestrator: idle_view(1), calls: Seq::empty() }),
            p.marker() == Some(progress_marker@),
            p.well_formed(),
    {
        TransformationPipeline {
            registry,
            orchestrator: OperationOrchestrator::new(),
            extractor,
            transformer,
            replacer,
            progress_marker: Some(String::from_str(progress_marker)),
            calls: Ghost(Seq::empty()),
        }
    }

    pub fn process_buffer(&mut self, buffer: &str, app_id: &str, window_id: Option<String>) -> (r:
        Result<PipelineOutcome, PipelineError>)
        requires
            old(self).well_formed(),
        ensures
            final(self).well_formed(),
            final(self).registry_view() == old(self).registry_view(),
            final(self).marker() == old(self).marker(),
            buffer_effect(
                old(self).state(),
                final(self).state(),
                old(self).marker(),
                detection(old(self).registry_view(), buffer@),
                app_id@,
                crate::text::opt_text(window_id),
                r,
            ),
            pipeline_calls_made_from::<E, T, R>(
                final(self).state().calls,
                old(self).state().calls.len() as int,
            ),
    {
        match detect_trigger(buffer, &self.registry) {
            DetectionDecision::NoMatch => Ok(PipelineOutcome::NoMatch),
            DetectionDecision::PendingDynamic(_) => Ok(PipelineOutcome::PendingDynamic),
            DetectionDecision::Matched(trigger_match) => {
                self.execute_match(trigger_match, String::from_str(app_id), window_id)
            },
        }
    }

    pub fn finalize_pending_buffer(
        &mut self,
        buffer: &str,
        app_id: &str,
        window_id: Option<String>,
    ) -> (r: Result<PipelineOutcome, PipelineError>)
        requires
            old(self).well_formed(),
        ensures
            final(self).well_formed(),
            final(self).registry_view() == old(self).registry_view(),
            final(self).marker() == old(self).marker(),
            buffer_effect(
                old(self).state(),
                final(self).state(),
                old(self).marker(),
                dynamic_detection(buffer@, true),
                app_id@,
                crate::text::opt_text(window_id),
                r,
            ),
            pipeline_calls_made_from::<E, T, R>(
                final(self).state().calls,
                old(self).state().calls.len() as int,
            ),
    {
        match finalize_pending_dynamic(buffer) {
            DetectionDecision::NoMatch => Ok(PipelineOutcome::NoMatch),
            DetectionDecision::PendingDynamic(_) => Ok(PipelineOutcome::PendingDynamic),
            DetectionDecision::Matched(trigger_match) => {
                self.execute_match(trigger_match, String::from_str(app_id), window_id)
            },
        }
    }

    pub fn process_foreground_buffer<P: ForegroundAppProvider>(
        &mut self,
        buffer: &str,
        provider: &mut P,
        gate: &OperationGate,
    ) -> (r: Result<PipelineOutcome, PipelineError>)
        requires
            old(self).well_formed(),
        ensures
            final(self).well_formed(),
            final(self).registry_view() == old(self).registry_view(),
            final(self).marker() == old(self).marker(),
            foreground_effect(
                old(self).state(),
                final(self).state(),
                old(self).marker(),
                detection(old(self).registry_view(), buffer@),
                *gate,
                r,
            ),
            foreground_call_made::<P>(final(self).state().calls[old(self).state().calls.len() as int]),
            pipeline_calls_made_from::<E, T, R>(
                final(self).state().calls,
                old(self).state().calls.len() + 1int,
            ),
    {
        let ghost before = self.state();
        let asked = provider.foreground_app();
        let ghost record = CallRecord::Foreground { result: app_result(asked) };
        self.record(Ghost(record));
        let ghost mid = self.state();
        assert(mid.calls =~= before.calls.push(record));
        let app = match asked {
            Ok(app) => app,
            Err(error) => {
                return Err(PipelineError::Platform(error));
            },
        };
        let decision = gate.evaluate(&app);
        match decision {
            OperationGateDecision::Allow => {},
            _ => {
                return Ok(PipelineOutcome::Blocked(decision));
            },
        }
        let r = self.process_buffer(buffer, app.app_id.as_str(), app.window_id);
        proof {
            lemma_buffer_effect_keeps_prefix(mid, self.state(), old(self).marker(), detection(self.registry_view(), buffer@), app@.app_id, app@.window_id, r);
        }
        r
    }

    pub fn finalize_pending_foreground_buffer<P: ForegroundAppProvider>(
        &mut self,
        buffer: &str,
        provider: &mut P,
        gate: &OperationGate,
    ) -> (r: Result<PipelineOutcome, PipelineError>)
        requires
            old(self).well_formed(),
        ensures
            final(self).well_formed(),
            final(self).registry_view() == old(self).registry_view(),
            final(self).marker() == old(self).marker(),
            foreground_effect(
                old(self).state(),
                final(self).state(),
                old(self).marker(),
                dynamic_detection(buffer@, true),
                *gate,
                r,
            ),
            foreground_call_made::<P>(final(self).state().calls[old(self).state().calls.len() as int]),
            pipeline_calls_made_from::<E, T, R>(
                final(self).state().calls,
                old(self).state().calls.len() + 1int,
            ),
    {
        let ghost before = self.state();
        let asked = provider.foreground_app();
        let ghost record = CallRecord::Foreground { result: app_result(asked) };
        self.record(Ghost(record));
        let ghost mid = self.state();
        assert(mid.calls =~= before.calls.push(record));
        let app = match asked {
            Ok(app) => app,
            Err(error) => {
                return Err(PipelineError::Platform(error));
            },
        };
        let decision = gate.evaluate(&app);
        match decision {
            OperationGateDecision::Allow => {},
            _ => {
                return Ok(PipelineOutcome::Blocked(decision));
            },
        }
        let r = self.finalize_pending_buffer(buffer, app.app_id.as_str(), app.window_id);
        proof {
            lemma_buffer_effect_keeps_prefix(mid, self.state(), old(self).marker(), dynamic_detection(buffer@, true), app@.app_id, app@.window_id, r);
        }
        r
    }

    pub fn into_parts(self) -> (parts: (OperationOrchestrator, E, T, R))
        ensures
            parts.0@ == self.orchestrator_view(),
    {
        (self.orchestrator, self.extractor, self.transformer, self.replacer)
    }

    fn record(&mut self, call: Ghost<CallRecord>)
        ensures
            final(self).calls@ == old(self).calls@.push(call@),
            final(self).orchestrator@ == old(self).orchestrator@,
            final(self).registry_view() == old(self).registry_view(),
            final(self).marker() == old(self).marker(),
            final(self).well_formed() == old(self).well_formed(),
    {
        self.calls = Ghost(self.calls@.push(call@));
    }

    fn record_made(&mut self, call: Ghost<CallRecord>, from: Ghost<int>)
        requires
            pipeline_call_made::<E, T, R>(call@),
            pipeline_calls_made_from::<E, T, R>(old(self).calls@, from@),
        ensures
            final(self).calls@ == old(self).calls@.push(call@),
            pipeline_calls_made_from::<E, T, R>(final(self).calls@, from@),
            final(self).orchestrator@ == old(self).orchestrator@,
            final(self).registry_view() == old(self).registry_view(),
            final(self).marker() == old(self).marker(),
            final(self).well_formed() == old(self).well_formed(),
    {
        self.record(call);
        assert forall|i: int| 0 <= i && from@ <= i < self.calls@.len() implies pipeline_call_made::<E, T, R>(
            #[trigger] self.calls@[i],
        ) by {
            if i < old(self).calls@.len() {
                assert(self.calls@[i] == old(self).calls@[i]);
            }
        }
    }

    fn replace_recorded(
        &mut self,
        snapshot: &OperationSnapshot,
        current: &str,
        replacement: &str,
        from: Ghost<int>,
    ) -> (r: Result<(), ReplacementError>)
        requires
            pipeline_calls_made_from::<E, T, R>(old(self).calls@, from@),
        ensures
            final(self).calls@ == old(self).calls@.push(
                CallRecord::Replace {
                    snapshot: snapshot@,
                    current: current@,
                    replacement: replacement@,
                    result: r,
                },
            ),
            pipeline_calls_made_from::<E, T, R>(final(self).calls@, from@),
            final(self).orchestrator@ == old(self).orchestrator@,
            final(self).registry_view() == old(self).registry_view(),
            final(self).marker() == old(self).marker(),
            final(self).well_formed() == old(self).well_formed(),
    {
        let r = self.replacer.replace_current(snapshot, current, replacement);
        self.record_made(
            Ghost(
                CallRecord::Replace {
                    snapshot: snapshot@,
                    current: current@,
                    replacement: replacement@,
                    result: r,
                },
            ),
            from,
        );
        r
    }

    fn execute_match(
        &mut self,
        trigger_match: TriggerMatch,
        app_id: String,
        window_id: Option<String>,
    ) -> (r: Result<PipelineOutcome, PipelineError>)
        requires
            old(self).well_formed(),
        ensures
            final(self).well_formed(),
            final(self).registry_view() == old(self).registry_view(),
            final(self).marker() == old(self).marker(),
            match_effect(
                old(self).state(),
                final(self).state(),
                old(self).marker(),
                trigger_match@,
                app_id@,
                crate::text::opt_text(window_id),
                r,
            ),
            pipeline_calls_made_from::<E, T, R>(
                final(self).state().calls,
                old(self).state().calls.len() as int,
            ),
    {
        let ghost before = self.calls@;
        let ghost from = before.len() as int;
        let ghost marker = self.marker();
        let operation_id = match self.orchestrator.begin_static_extraction() {
            Ok(id) => id,
            Err(error) => {
                return Err(PipelineError::Orchestrator(error));
            },
        };
        let context = ExtractionContext {
            operation_id,
            app_id,
            window_id,
            trigger_match: trigger_match.duplicate(),
        };
        let ghost context_view = context@;
        let extracted = self.extractor.extract(context);
        let ghost extract_record = CallRecord::Extract {
            context: context_view,
            result: snapshot_result(extracted),
        };
        self.record_made(Ghost(extract_record), Ghost(from));
        proof {
            assert(self.calls@ =~= before + seq![extract_record]);
            lemma_appended(self.calls@, before, seq![extract_record]);
        }
        let snapshot = match extracted {
            Ok(snapshot) => snapshot,
            Err(error) => {
                self.orchestrator.fail();
                return Err(PipelineError::Extraction(error));
            },
        };
        if let Err(error) = self.orchestrator.complete_extraction(snapshot.duplicate()) {
            self.orchestrator.fail();
            return Err(PipelineError::Orchestrator(error));
        }
        let ghost mut rest: Seq<CallRecord> = Seq::empty();
        let progress_text = self.progress_text(&snapshot);
        let current_text: &str = match &progress_text {
            Some(text) => text.as_str(),
            None => snapshot.replacement_target_text.as_str(),
        };
        if let Some(text) = &progress_text {
            let shown = self.replace_recorded(
                &snapshot,
                snapshot.replacement_target_text.as_str(),
                text.as_str(),
                Ghost(from),
            );
            proof {
                rest = rest.push(
                    CallRecord::Replace {
                        snapshot: snapshot@,
                        current: snapshot.replacement_target_text@,
                        replacement: text@,
                        result: shown,
                    },
                );
                assert(self.calls@ =~= before + (seq![extract_record] + rest));
                lemma_appended(self.calls@, before, seq![extract_record] + rest);
                lemma_skip_first(extract_record, rest);
            }
            if let Err(error) = shown {
                self.orchestrator.fail();
                return Err(PipelineError::Replacement(error));
            }
        }
        let ghost shown_records = rest;
        assert(self.calls@ =~= before + seq![extract_record] + shown_records);
        let transformed = self.transformer.transform(
            &trigger_match.command,
            snapshot.transform_input.as_str(),
        );
        let ghost transform_record = CallRecord::Transform {
            command: trigger_match.command@,
            input: snapshot.transform_input@,
            result: text_result(transformed),
        };
        self.record_made(Ghost(transform_record), Ghost(from));
        proof {
            rest = rest.push(transform_record);
        }
        let ghost calls_after_transform = self.calls@;
        assert(calls_after_transform =~= before + seq![extract_record] + shown_records + seq![
            transform_record,
        ]);
        let replacement_text = match transformed {
            Ok(text) => text,
            Err(error) => {
                self.restore_after_progress(&snapshot, current_text, Ghost(from));
                self.orchestrator.fail();
                proof {
                    assert(self.calls@.take(calls_after_transform.len() as int) =~= calls_after_transform);
                    lemma_finish(
                        self.calls@,
                        calls_after_transform,
                        before,
                        extract_record,
                        shown_records,
                        transform_record,
                    );
                }
                return Err(PipelineError::Transform(error));
            },
        };
        if !has_content_chars(&chars_of(replacement_text.as_str())) {
            self.restore_after_progress(&snapshot, current_text, Ghost(from));
            self.orchestrator.fail();
            proof {
                assert(self.calls@.take(calls_after_transform.len() as int) =~= calls_after_transform);
                    lemma_finish(
                        self.calls@,
                        calls_after_transform,
                        before,
                        extract_record,
                        shown_records,
                        transform_record,
                    );
            }
            return Err(PipelineError::Transform(TransformError::EmptyOutput));
        }
        if let Err(error) = self.orchestrator.begin_replacement() {
            self.orchestrator.fail();
            return Err(PipelineError::Orchestrator(error));
        }
        let replaced = self.replace_recorded(
            &snapshot,
            current_text,
            replacement_text.as_str(),
            Ghost(from),
        );
        proof {
            assert(self.calls@.take(calls_after_transform.len() as int) =~= calls_after_transform);
                    lemma_finish(
                        self.calls@,
                        calls_after_transform,
                        before,
                        extract_record,
                        shown_records,
                        transform_record,
                    );
        }
        if let Err(error) = replaced {
            self.orchestrator.fail();
            return Err(PipelineError::Replacement(error));
        }
        if let Err(error) = self.orchestrator.begin_verification() {
            self.orchestrator.fail();
            return Err(PipelineError::Orchestrator(error));
        }
        if let Err(error) = self.orchestrator.complete() {
            self.orchestrator.fail();
            return Err(PipelineError::Orchestrator(error));
        }
        Ok(PipelineOutcome::Replaced { trigger_text: snapshot.trigger_text, replacement_text })
    }

    /// The field text followed by a space and the progress marker, when there
    /// is a marker.
    fn progress_text(&self, snapshot: &OperationSnapshot) -> (t: Option<String>)
        ensures
            match self.marker() {
                Some(marker) => t matches Some(text) && text@
                    == snapshot.replacement_target_text@ + seq![' '] + marker,
                None => t is None,
            },
    {
        match &self.progress_marker {
            Some(marker) => {
                proof {
                    reveal_strlit(" ");
                }
                Some(
                    String::from_str(snapshot.replacement_target_text.as_str()).concat(" ").concat(
                        marker.as_str(),
                    ),
                )
            },
            None => None,
        }
    }

    /// Puts the field text back in place of the progress text, if a marker is shown.
    fn restore_after_progress(
        &mut self,
        snapshot: &OperationSnapshot,
        current_text: &str,
        from: Ghost<int>,
    )
        requires
            pipeline_calls_made_from::<E, T, R>(old(self).calls@, from@),
        ensures
            pipeline_calls_made_from::<E, T, R>(final(self).calls@, from@),
            final(self).registry_view() == old(self).registry_view(),
            final(self).orchestrator_view() == old(self).orchestrator_view(),
            final(self).marker() == old(self).marker(),
            final(self).well_formed() == old(self).well_formed(),
            old(self).marker() is Some ==> (final(self).calls@.len() == old(self).calls@.len() + 1
                && final(self).calls@.drop_last() == old(self).calls@ && (final(self).calls@.last() matches CallRecord::Replace {
                snapshot: snap,
                current,
                replacement,
                ..
            } && snap == snapshot@ && current == current_text@ && replacement
                == snapshot.replacement_target_text@)),
            old(self).marker() is None ==> final(self).calls@ == old(self).calls@,
    {
        if self.progress_marker.is_some() {
            let _ = self.replace_recorded(
                snapshot,
                current_text,
                snapshot.replacement_target_text.as_str(),
                from,
            );
            assert(self.calls@.drop_last() =~= old(self).calls@);
        }
    }
}

} // verus!

verus! {

/// Applications that may not be touched are never transformed: while
/// operations are turned off, and for an application with secure input, an
/// elevated application or an excluded one, processing a buffer for it
/// returns the decision of `gate`, and no call follows the provider's answer:
/// nothing is extracted, transformed or replaced.
pub proof fn lemma_blocked_app_is_never_transformed(
    before: PipelineView,
    after: PipelineView,
    marker: Option<Seq<char>>,
    d: DecisionView,
    gate: OperationGate,
    app: ForegroundAppView,
    r: Result<PipelineOutcome, PipelineError>,
)
    requires
        foreground_effect(before, after, marker, d, gate, r),
        after.calls[before.calls.len() as int] == (CallRecord::Foreground { result: Ok(app) }),
        !gate.enabled() || app.secure_input || app.elevated || gate.excluded().contains(app.app_id),
    ensures
        gate.decision_for(app) != OperationGateDecision::Allow,
        r == Ok::<PipelineOutcome, PipelineError>(PipelineOutcome::Blocked(gate.decision_for(app))),
        after.orchestrator == before.orchestrator,
        after.calls == before.calls.push(CallRecord::Foreground { result: Ok(app) }),
{
}

/// Processing a buffer only appends to the calls made so far.
proof fn lemma_buffer_effect_keeps_prefix(
    before: PipelineView,
    after: PipelineView,
    marker: Option<Seq<char>>,
    d: DecisionView,
    app_id: Seq<char>,
    window_id: Option<Seq<char>>,
    r: Result<PipelineOutcome, PipelineError>,
)
    requires
        buffer_effect(before, after, marker, d, app_id, window_id, r),
    ensures
        before.calls.len() <= after.calls.len(),
        forall|i: int| 0 <= i < before.calls.len() ==> #[trigger] after.calls[i] == before.calls[i],
{
    assert forall|i: int| 0 <= i < before.calls.len() implies #[trigger] after.calls[i]
        == before.calls[i] by {
        if after != before {
            assert(after.calls.take(before.calls.len() as int)[i] == after.calls[i]);
        }
    }
}

/// `calls` is `before` with `added` appended.
proof fn lemma_appended(calls: Seq<CallRecord>, before: Seq<CallRecord>, added: Seq<CallRecord>)
    requires
        calls == before + added,
    ensures
        calls.take(before.len() as int) == before,
        calls.skip(before.len() as int) == added,
{
    assert(calls.take(before.len() as int) =~= before);
    assert(calls.skip(before.len() as int) =~= added);
}

proof fn lemma_skip_first(first: CallRecord, rest: Seq<CallRecord>)
    ensures
        (seq![first] + rest)[0] == first,
        (seq![first] + rest).skip(1) == rest,
{
    assert((seq![first] + rest).skip(1) =~= rest);
}

/// The calls of an operation that got past extraction: the extraction, the
/// progress replacement when shown, the transformation, and what followed it.
proof fn lemma_finish(
    calls: Seq<CallRecord>,
    after_transform: Seq<CallRecord>,
    before: Seq<CallRecord>,
    extract: CallRecord,
    shown: Seq<CallRecord>,
    transform: CallRecord,
)
    requires
        after_transform == before + seq![extract] + shown + seq![transform],
        after_transform.len() <= calls.len(),
        calls.take(after_transform.len() as int) == after_transform,
    ensures
        calls.take(before.len() as int) == before,
        calls.skip(before.len() as int)[0] == extract,
        calls.skip(before.len() as int).skip(1) == shown + seq![transform] + calls.skip(
            after_transform.len() as int,
        ),
        shown.len() == 1 ==> calls.skip(before.len() as int).skip(1)[0] == shown[0] && calls.skip(
            before.len() as int,
        ).skip(1).skip(1) == seq![transform] + calls.skip(after_transform.len() as int),
        (seq![transform] + calls.skip(after_transform.len() as int))[0] == transform,
        (seq![transform] + calls.skip(after_transform.len() as int)).skip(1) == calls.skip(
            after_transform.len() as int,
        ),
{
    let tail = calls.skip(after_transform.len() as int);
    assert(calls =~= after_transform + tail);
    assert(calls.take(before.len() as int) =~= before);
    assert(calls.skip(before.len() as int) =~= seq![extract] + shown + seq![transform] + tail);
    assert(calls.skip(before.len() as int).skip(1) =~= shown + seq![transform] + tail);
    if shown.len() == 1 {
        assert(calls.skip(before.len() as int).skip(1).skip(1) =~= seq![transform] + tail);
    }
    assert((seq![transform] + tail).skip(1) =~= tail);
}

} // verus!
