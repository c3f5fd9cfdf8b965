use vstd::prelude::*;

use super::events::{InputEvent, KeystrokeBuffer};
use super::guard::{later, SyntheticInputGuard};
use crate::commands::CommandView;
use crate::detection::{detection, dynamic_detection, DYNAMIC_DEBOUNCE_MS};
use crate::extraction::TextExtractor;
use crate::pipeline::{
    foreground_call_made, pipeline_calls_made_from, CallRecord, foreground_effect, PipelineError, PipelineOutcome, PipelineView, TextTransformer,
    TransformationPipeline,
};
use crate::platform::{ForegroundAppProvider, OperationGate, OperationGateDecision};
use crate::replacement::TextReplacer;

verus! {

#[derive(Debug, Clone, PartialEq, Eq)]
pub enum InputControllerOutcome {
    IgnoredSynthetic,
    BufferUpdated(String),
    BufferCleared,
    Pipeline(PipelineOutcome),
}

#[derive(Debug, Clone, Copy, PartialEq, Eq, Structural)]
pub enum InputControllerError {
    Pipeline(PipelineError),
}

impl From<PipelineError> for InputControllerError {
    fn from(error: PipelineError) -> (e: InputControllerError) {
        InputControllerError::Pipeline(error)
    }
}

impl vstd::std_specs::convert::FromSpecImpl<PipelineError> for InputControllerError {
    open spec fn obeys_from_spec() -> bool {
        true
    }

    open spec fn from_spec(error: PipelineError) -> InputControllerError {
        InputControllerError::Pipeline(error)
    }
}

/// The pipeline result that a controller outcome reports; a buffer update
/// stands for a buffer in which nothing matched.
pub open spec fn pipeline_result_of(
    r: Result<InputControllerOutcome, InputControllerError>,
) -> Result<PipelineOutcome, PipelineError> {
    match r {
        Ok(InputControllerOutcome::Pipeline(o)) => Ok(o),
        Err(InputControllerError::Pipeline(e)) => Err(e),
        _ => Ok(PipelineOutcome::NoMatch),
    }
}

/// The controller's state as plain values.
pub struct ControllerView {
    pub buffer: Seq<char>,
    pub deadline: Option<u64>,
    pub pipeline: PipelineView,
}

/// What the pipeline's answer on the buffer `typed` does to the controller:
/// a replacement or a block clears the buffer and the pending deadline; a
/// pending dynamic trigger sets the deadline to `pending_deadline`; no match
/// clears it; an error keeps the buffer and leaves the deadline at
/// `error_deadline`.
pub open spec fn after_pipeline(
    after: ControllerView,
    typed: Seq<char>,
    pending_deadline: Option<u64>,
    error_deadline: Option<u64>,
    r: Result<InputControllerOutcome, InputControllerError>,
) -> bool {
    match r {
        Ok(InputControllerOutcome::BufferUpdated(s)) => s@ == typed && after.buffer == typed
            && after.deadline is None,
        Ok(InputControllerOutcome::Pipeline(PipelineOutcome::PendingDynamic)) => after.buffer
            == typed && after.deadline == pending_deadline,
        Ok(InputControllerOutcome::Pipeline(PipelineOutcome::Blocked(_))) => after.buffer
            =~= Seq::<char>::empty() && after.deadline is None,
        Ok(InputControllerOutcome::Pipeline(PipelineOutcome::Replaced { .. })) => after.buffer
            =~= Seq::<char>::empty() && after.deadline is None,
        Err(_) => after.buffer == typed && after.deadline == error_deadline,
        _ => false,
    }
}

/// What one event does when it is not synthetic input.
pub open spec fn event_effect(
    reg: Seq<CommandView>,
    marker: Option<Seq<char>>,
    gate: OperationGate,
    before: ControllerView,
    after: ControllerView,
    event: InputEvent,
    now: u64,
    r: Result<InputControllerOutcome, InputControllerError>,
) -> bool {
    match event {
        InputEvent::Text(text) => {
            let typed = before.buffer + text@;
            &&& after_pipeline(
                after,
                typed,
                Some(later(now, DYNAMIC_DEBOUNCE_MS)),
                before.deadline,
                r,
            )
            &&& foreground_effect(
                before.pipeline,
                after.pipeline,
                marker,
                detection(reg, typed),
                gate,
                pipeline_result_of(r),
            )
        },
        InputEvent::Backspace => {
            let kept = if before.buffer.len() == 0 {
                before.buffer
            } else {
                before.buffer.drop_last()
            };
            &&& r matches Ok(InputControllerOutcome::BufferUpdated(s)) && s@ == kept
            &&& after.buffer == kept
            &&& after.deadline == if before.deadline is Some {
                Some(later(now, DYNAMIC_DEBOUNCE_MS))
            } else {
                None
            }
            &&& after.pipeline == before.pipeline
        },
        _ => {
            &&& r == Ok::<InputControllerOutcome, InputControllerError>(
                InputControllerOutcome::BufferCleared,
            )
            &&& after.buffer =~= Seq::<char>::empty()
            &&& after.deadline is None
            &&& after.pipeline == before.pipeline
        },
    }
}

/// What the debounce timer does at `now`.
pub open spec fn timeout_effect(
    marker: Option<Seq<char>>,
    gate: OperationGate,
    before: ControllerView,
    after: ControllerView,
    now: u64,
    r: Result<InputControllerOutcome, InputControllerError>,
) -> bool {
    match before.deadline {
        Some(deadline) if now >= deadline => {
            &&& after_pipeline(after, before.buffer, None, None, r)
            &&& !(r matches Ok(InputControllerOutcome::Pipeline(PipelineOutcome::PendingDynamic)))
            &&& foreground_effect(
                before.pipeline,
                after.pipeline,
                marker,
                dynamic_detection(before.buffer, true),
                gate,
                pipeline_result_of(r),
            )
        },
        _ => {
            &&& r matches Ok(InputControllerOutcome::BufferUpdated(s)) && s@ == before.buffer
            &&& after == before
        },
    }
}

/// Every call that the pipeline recorded after `before` was made: first the
/// provider's answer, then the extractor's, transformer's and replacer's
/// calls.
pub open spec fn calls_made_since<
    E: TextExtractor,
    T: TextTransformer,
    R: TextReplacer,
    P: ForegroundAppProvider,
>(before: Seq<CallRecord>, after: Seq<CallRecord>) -> bool {
    after.len() > before.len() ==> {
        &&& foreground_call_made::<P>(after[before.len() as int])
        &&& pipeline_calls_made_from::<E, T, R>(after, before.len() + 1int)
    }
}

/// Feeds keyboard events to the pipeline and keeps the typed buffer.
pub struct InputController<E, T, R, P> {
    buffer: KeystrokeBuffer,
    pipeline: TransformationPipeline<E, T, R>,
    foreground_provider: P,
    gate: OperationGate,
    synthetic_guard: SyntheticInputGuard,
    pending_dynamic_deadline: Option<u64>,
    suppression_checks: Ghost<Seq<(u64, bool)>>,
}

impl<E, T, R, P> InputController<E, T, R, P> {
    pub closed spec fn state(&self) -> ControllerView {
        ControllerView {
            buffer: self.buffer@,
            deadline: self.pending_dynamic_deadline,
            pipeline: self.pipeline.state(),
        }
    }

    pub closed spec fn marker(&self) -> Option<Seq<char>> {
        self.pipeline.marker()
    }

    pub closed spec fn guard(&self) -> SyntheticInputGuard {
        self.synthetic_guard
    }

    /// What handling `event` at `now` does, given the guard's answer
    /// `suppressed`: synthetic input is ignored and nothing changes; otherwise
    /// the event has its effect. The provider is asked only for typed text.
    pub open spec fn checked_event_effect(
        before: Self,
        after: Self,
        event: InputEvent,
        now: u64,
        suppressed: bool,
        r: Result<InputControllerOutcome, InputControllerError>,
    ) -> bool {
        &&& suppressed ==> r == Ok::<InputControllerOutcome, InputControllerError>(
            InputControllerOutcome::IgnoredSynthetic,
        ) && after.state() == before.state()
        &&& (suppressed || !(event is Text)) ==> after.provider() == before.provider()
        &&& !suppressed ==> event_effect(
            before.registry_view(),
            before.marker(),
            before.gate(),
            before.state(),
            after.state(),
            event,
            now,
            r,
        )
    }

    pub closed spec fn gate(&self) -> OperationGate {
        self.gate
    }

    pub closed spec fn provider(&self) -> P {
        self.foreground_provider
    }

    /// Every time the controller asked the guard whether input is synthetic,
    /// and the answer it got, in order.
    pub closed spec fn suppression_checks(&self) -> Seq<(u64, bool)> {
        self.suppression_checks@
    }

    pub closed spec fn registry_view(&self) -> Seq<CommandView> {
        self.pipeline.registry_view()
    }

    pub closed spec fn well_formed(&self) -> bool {
        self.pipeline.well_formed()
    }
}

impl<
    E: TextExtractor,
    T: TextTransformer,
    R: TextReplacer,
    P: ForegroundAppProvider,
> InputController<E, T, R, P> {
    pub fn new(
        pipeline: TransformationPipeline<E, T, R>,
        foreground_provider: P,
        gate: OperationGate,
        synthetic_guard: SyntheticInputGuard,
    ) -> (c: Self)
        requires
            pipeline.well_formed(),
        ensures
            c.well_formed(),
            c.state().buffer == Seq::<char>::empty(),
            c.state().deadline is None,
            c.state().pipeline == pipeline.state(),
            c.registry_view() == pipeline.registry_view(),
            c.marker() == pipeline.marker(),
            c.suppression_checks() == Seq::<(u64, bool)>::empty(),
            c.gate() == gate,
            c.provider() == foreground_provider,
    {
        InputController {
            buffer: KeystrokeBuffer::new(),
            pipeline,
            foreground_provider,
            gate,
            synthetic_guard,
            pending_dynamic_deadline: None,
            suppression_checks: Ghost(Seq::empty()),
        }
    }

    /// Handles one event at time `now` (milliseconds): asks the guard whether
    /// input at `now` is synthetic, then handles the event with that answer.
    pub fn handle_event(&mut self, event: InputEvent, now: u64) -> (r: Result<
        InputControllerOutcome,
        InputControllerError,
    >)
        requires
            old(self).well_formed(),
        ensures
            final(self).well_formed(),
            final(self).registry_view() == old(self).registry_view(),
            final(self).marker() == old(self).marker(),
            final(self).gate() == old(self).gate(),
            final(self).guard() == old(self).guard(),
            final(self).suppression_checks().len() == old(self).suppression_checks().len() + 1,
            final(self).suppression_checks().drop_last() == old(self).suppression_checks(),
            final(self).suppression_checks().last().0 == now,
            call_ensures(
                SyntheticInputGuard::is_suppressed,
                (&old(self).guard(), now),
                final(self).suppression_checks().last().1,
            ),
            Self::checked_event_effect(
                *old(self),
                *final(self),
                event,
                now,
                final(self).suppression_checks().last().1,
                r,
            ),
            !final(self).suppression_checks().last().1 && !(event is Text) && !(
            event is Backspace) ==> {
                &&& r == Ok::<InputControllerOutcome, InputControllerError>(
                    InputControllerOutcome::BufferCleared,
                )
                &&& final(self).state().buffer.len() == 0
                &&& final(self).state().deadline is None
                &&& final(self).state().pipeline == old(self).state().pipeline
            },
            calls_made_since::<E, T, R, P>(
                old(self).state().pipeline.calls,
                final(self).state().pipeline.calls,
            ),
    {
        let suppressed = self.synthetic_guard.is_suppressed(now);
        self.suppression_checks = Ghost(self.suppression_checks@.push((now, suppressed)));
        self.handle_checked_event(event, now, suppressed)
    }

    /// Handles one event at time `now` (milliseconds), given whether the guard
    /// takes input at `now` for synthetic: synthetic input is ignored.
    pub fn handle_checked_event(&mut self, event: InputEvent, now: u64, suppressed: bool) -> (r:
        Result<InputControllerOutcome, InputControllerError>)
        requires
            old(self).well_formed(),
        ensures
            final(self).well_formed(),
            final(self).registry_view() == old(self).registry_view(),
            final(self).marker() == old(self).marker(),
            final(self).gate() == old(self).gate(),
            final(self).guard() == old(self).guard(),
            final(self).suppression_checks() == old(self).suppression_checks(),
            Self::checked_event_effect(*old(self), *final(self), event, now, suppressed, r),
            !suppressed && !(event is Text) && !(event is Backspace) ==> {
                &&& r == Ok::<InputControllerOutcome, InputControllerError>(
                    InputControllerOutcome::BufferCleared,
                )
                &&& final(self).state().buffer.len() == 0
                &&& final(self).state().deadline is None
                &&& final(self).state().pipeline == old(self).state().pipeline
            },
            calls_made_since::<E, T, R, P>(
                old(self).state().pipeline.calls,
                final(self).state().pipeline.calls,
            ),
    {
        if suppressed {
            return Ok(InputControllerOutcome::IgnoredSynthetic);
        }
        match event {
            InputEvent::Text(text) => {
                self.buffer.append(text.as_str());
                let outcome = match self.pipeline.process_foreground_buffer(
                    self.buffer.as_str(),
                    &mut self.foreground_provider,
                    &self.gate,
                ) {
                    Ok(outcome) => outcome,
                    Err(error) => {
                        return Err(InputControllerError::Pipeline(error));
                    },
                };
                match outcome {
                    PipelineOutcome::NoMatch => {
                        self.pending_dynamic_deadline = None;
                        Ok(
                            InputControllerOutcome::BufferUpdated(
                                String::from_str(self.buffer.as_str()),
                            ),
                        )
                    },
                    PipelineOutcome::PendingDynamic => {
                        self.pending_dynamic_deadline = Some(
                            now.saturating_add(DYNAMIC_DEBOUNCE_MS),
                        );
                        Ok(InputControllerOutcome::Pipeline(PipelineOutcome::PendingDynamic))
                    },
                    PipelineOutcome::Blocked(decision) => {
                        self.clear_buffer_and_pending();
                        Ok(InputControllerOutcome::Pipeline(PipelineOutcome::Blocked(decision)))
                    },
                    PipelineOutcome::Replaced { trigger_text, replacement_text } => {
                        self.clear_buffer_and_pending();
                        Ok(
                            InputControllerOutcome::Pipeline(
                                PipelineOutcome::Replaced { trigger_text, replacement_text },
                            ),
                        )
                    },
                }
            },
            InputEvent::Backspace => {
                let rearm_pending_dynamic = self.pending_dynamic_deadline.is_some();
                self.buffer.backspace();
                if rearm_pending_dynamic {
                    self.pending_dynamic_deadline = Some(now.saturating_add(DYNAMIC_DEBOUNCE_MS));
                }
                Ok(InputControllerOutcome::BufferUpdated(String::from_str(self.buffer.as_str())))
            },
            _ => {
                self.clear_buffer_and_pending();
                Ok(InputControllerOutcome::BufferCleared)
            },
        }
    }

    /// Fires a pending dynamic trigger once its deadline has come.
    pub fn handle_pending_timeout(&mut self, now: u64) -> (r: Result<
        InputControllerOutcome,
        InputControllerError,
    >)
        requires
            old(self).well_formed(),
        ensures
            final(self).well_formed(),
            final(self).registry_view() == old(self).registry_view(),
            final(self).marker() == old(self).marker(),
            timeout_effect(
                old(self).marker(),
                old(self).gate(),
                old(self).state(),
                final(self).state(),
                now,
                r,
            ),
            final(self).gate() == old(self).gate(),
            !(old(self).state().deadline matches Some(d) && now >= d) ==> final(self).provider()
                == old(self).provider(),
            final(self).guard() == old(self).guard(),
            calls_made_since::<E, T, R, P>(
                old(self).state().pipeline.calls,
                final(self).state().pipeline.calls,
            ),
            final(self).suppression_checks() == old(self).suppression_checks(),
    {
        let deadline = match self.pending_dynamic_deadline {
            Some(deadline) => deadline,
            None => {
                return Ok(
                    InputControllerOutcome::BufferUpdated(String::from_str(self.buffer.as_str())),
                );
            },
        };
        if now < deadline {
            return Ok(
                InputControllerOutcome::BufferUpdated(String::from_str(self.buffer.as_str())),
            );
        }
        self.pending_dynamic_deadline = None;
        let outcome = match self.pipeline.finalize_pending_foreground_buffer(
            self.buffer.as_str(),
            &mut self.foreground_provider,
            &self.gate,
        ) {
            Ok(outcome) => outcome,
            Err(error) => {
                return Err(InputControllerError::Pipeline(error));
            },
        };
        proof {
            crate::detection::lemma_finalized_never_pending(self.buffer@);
        }
        match outcome {
            PipelineOutcome::NoMatch | PipelineOutcome::PendingDynamic => Ok(
                InputControllerOutcome::BufferUpdated(String::from_str(self.buffer.as_str())),
            ),
            PipelineOutcome::Blocked(decision) => {
                self.clear_buffer_and_pending();
                Ok(InputControllerOutcome::Pipeline(PipelineOutcome::Blocked(decision)))
            },
            PipelineOutcome::Replaced { trigger_text, replacement_text } => {
                self.clear_buffer_and_pending();
                Ok(
                    InputControllerOutcome::Pipeline(
                        PipelineOutcome::Replaced { trigger_text, replacement_text },
                    ),
                )
            },
        }
    }

    pub fn pending_dynamic_deadline(&self) -> (d: Option<u64>)
        ensures
            d == self.state().deadline,
    {
        self.pending_dynamic_deadline
    }

    pub fn buffer(&self) -> (s: &str)
        ensures
            s@ == self.state().buffer,
    {
        self.buffer.as_str()
    }

    pub fn into_parts(self) -> (parts: (TransformationPipeline<E, T, R>, P))
        ensures
            parts.0.state() == self.state().pipeline,
            parts.0.registry_view() == self.registry_view(),
            parts.0.well_formed() == self.well_formed(),
    {
        (self.pipeline, self.foreground_provider)
    }

    fn clear_buffer_and_pending(&mut self)
        ensures
            final(self).state().buffer == Seq::<char>::empty(),
            final(self).state().deadline is None,
            final(self).state().pipeline == old(self).state().pipeline,
            final(self).registry_view() == old(self).registry_view(),
            final(self).marker() == old(self).marker(),
            final(self).well_formed() == old(self).well_formed(),
            final(self).suppression_checks() == old(self).suppression_checks(),
            final(self).gate() == old(self).gate(),
            final(self).provider() == old(self).provider(),
            final(self).guard() == old(self).guard(),
    {
        self.buffer.clear();
        self.pending_dynamic_deadline = None;
    }
}

/// Every event other than typed text and backspace (delete, enter, escape,
/// tab, navigation, a mouse button, a shortcut, a focus change, sleep or
/// lock) ends what was being typed: the buffer is emptied, a pending dynamic
/// trigger is dropped so that its timeout fires nothing, nothing is called,
/// and the answer is `BufferCleared`.
pub proof fn lemma_other_events_clear_the_buffer(
    reg: Seq<CommandView>,
    marker: Option<Seq<char>>,
    gate: OperationGate,
    before: ControllerView,
    after: ControllerView,
    event: InputEvent,
    now: u64,
    r: Result<InputControllerOutcome, InputControllerError>,
)
    requires
        event_effect(reg, marker, gate, before, after, event, now, r),
        !(event is Text),
        !(event is Backspace),
    ensures
        r == Ok::<InputControllerOutcome, InputControllerError>(InputControllerOutcome::BufferCleared),
        after.buffer.len() == 0,
        after.deadline is None,
        after.pipeline == before.pipeline,
{
}

/// Without a pending deadline the debounce timer fires nothing: nothing
/// changes, nothing is called, and the buffer is reported as it is.
pub proof fn lemma_timeout_without_deadline_fires_nothing(
    marker: Option<Seq<char>>,
    gate: OperationGate,
    before: ControllerView,
    after: ControllerView,
    now: u64,
    r: Result<InputControllerOutcome, InputControllerError>,
)
    requires
        timeout_effect(marker, gate, before, after, now, r),
        before.deadline is None,
    ensures
        after == before,
        r matches Ok(InputControllerOutcome::BufferUpdated(s)) && s@ == before.buffer,
{
}

} // verus!
