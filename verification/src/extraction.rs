use vstd::prelude::*;

use crate::clipboard::{ClipboardBackend, ClipboardError, ClipboardSnapshot};
use crate::detection::TriggerMatch;
use crate::input::{InputSimulationError, InputSimulator};
use crate::input::simulator::paused;
use crate::orchestrator::{OperationSnapshot, SnapshotView};
use crate::text::{chars_of, copy_opt_text, ends_with, opt_text, trim_end, trim_end_at};

verus! {

#[derive(Debug, Clone, PartialEq, Eq)]
pub struct ExtractionContext {
    pub operation_id: u64,
    pub app_id: String,
    pub window_id: Option<String>,
    pub trigger_match: TriggerMatch,
}

/// An extraction context with its texts taken as character sequences.
pub struct ContextView {
    pub operation_id: u64,
    pub app_id: Seq<char>,
    pub window_id: Option<Seq<char>>,
    pub trigger_match: crate::detection::TriggerMatchView,
}

impl View for ExtractionContext {
    type V = ContextView;

    open spec fn view(&self) -> ContextView {
        ContextView {
            operation_id: self.operation_id,
            app_id: self.app_id@,
            window_id: opt_text(self.window_id),
            trigger_match: self.trigger_match@,
        }
    }
}

#[derive(Debug, Clone, Copy, PartialEq, Eq, Structural)]
pub enum ExtractionError {
    ClipboardUnavailable,
    CopyFailed,
    TriggerMissingFromSnapshot,
    AppBlocked,
}

/// Reads the text of the focused field for an operation.
pub trait TextExtractor {
    fn extract(&mut self, context: ExtractionContext) -> Result<OperationSnapshot, ExtractionError>;
}

/// The text before a trigger at the end of the field text, once white space
/// at the end of both is dropped; `None` when the trigger does not end it.
pub open spec fn input_before_trigger(text: Seq<char>, trigger: Seq<char>) -> Option<Seq<char>> {
    let t = trim_end(text);
    if ends_with(t, trigger) {
        Some(trim_end(t.take(t.len() - trigger.len())))
    } else {
        None
    }
}

/// The snapshot fields that come from the context as they are.
pub open spec fn snapshot_matches_context(s: OperationSnapshot, c: ExtractionContext) -> bool {
    &&& s.operation_id == c.operation_id
    &&& s.app_id@ == c.app_id@
    &&& opt_text(s.window_id) == opt_text(c.window_id)
    &&& s.trigger_text@ == c.trigger_match.trigger_text@
}

/// An extractor that rebuilds the field from the typed buffer.
#[derive(Debug, Clone, Default)]
pub struct BufferTextExtractor;

impl TextExtractor for BufferTextExtractor {
    fn extract(&mut self, context: ExtractionContext) -> (r: Result<
        OperationSnapshot,
        ExtractionError,
    >)
        ensures
            r matches Ok(s) && {
                let text = context.trigger_match.transform_input@ + seq![' ']
                    + context.trigger_match.trigger_text@;
                &&& snapshot_matches_context(s, context)
                &&& s.extracted_text@ == text
                &&& s.replacement_target_text@ == text
                &&& s.transform_input@ == context.trigger_match.transform_input@
            },
    {
        let ExtractionContext { operation_id, app_id, window_id, trigger_match } = context;
        let text = String::from_str(trigger_match.transform_input.as_str()).concat(" ").concat(
            trigger_match.trigger_text.as_str(),
        );
        proof {
            reveal_strlit(" ");
        }
        Ok(
            OperationSnapshot {
                operation_id,
                app_id,
                window_id,
                extracted_text: text.clone(),
                replacement_target_text: text,
                transform_input: trigger_match.transform_input,
                trigger_text: trigger_match.trigger_text,
            },
        )
    }
}

/// What a call that hands back a snapshot or a snapshot's text gave, with
/// its texts as character sequences.
pub open spec fn snapshot_result(r: Result<OperationSnapshot, ExtractionError>) -> Result<
    SnapshotView,
    ExtractionError,
> {
    match r {
        Ok(s) => Ok(s@),
        Err(e) => Err(e),
    }
}

pub open spec fn clipboard_text_result(r: Result<Option<String>, ClipboardError>) -> Result<
    Option<Seq<char>>,
    ClipboardError,
> {
    match r {
        Ok(t) => Ok(opt_text(t)),
        Err(e) => Err(e),
    }
}

pub open spec fn clipboard_snapshot_result(r: Result<ClipboardSnapshot, ClipboardError>) -> Result<
    Option<Seq<char>>,
    ClipboardError,
> {
    match r {
        Ok(s) => Ok(opt_text(s.text)),
        Err(e) => Err(e),
    }
}

/// One call the clipboard extractor made to its clipboard or its input
/// simulator, with what it handed over and what came back.
pub enum ExtractorCall {
    Snapshot { result: Result<Option<Seq<char>>, ClipboardError> },
    Pause { duration_ms: u64 },
    SelectAll { result: Result<(), InputSimulationError> },
    Copy { result: Result<(), InputSimulationError> },
    GetText { result: Result<Option<Seq<char>>, ClipboardError> },
    Restore { snapshot: Option<Seq<char>>, result: Result<(), ClipboardError> },
    CollapseSelection { result: Result<(), InputSimulationError> },
}

/// The recorded call was made: a call of the clipboard's or the input
/// simulator's method, on the recorded arguments, returned the recorded
/// result.
pub open spec fn extractor_call_made<C: ClipboardBackend, I: InputSimulator>(
    call: ExtractorCall,
) -> bool {
    match call {
        ExtractorCall::Snapshot { result } => exists|
            x: &mut C,
            raw: Result<ClipboardSnapshot, ClipboardError>,
        | call_ensures(C::snapshot, (x,), raw) && clipboard_snapshot_result(raw) == result,
        ExtractorCall::Pause { duration_ms } => paused::<I>(duration_ms),
        ExtractorCall::SelectAll { result } => exists|x: &mut I|
            call_ensures(I::select_all, (x,), result),
        ExtractorCall::Copy { result } => exists|x: &mut I| call_ensures(I::copy, (x,), result),
        ExtractorCall::GetText { result } => exists|
            x: &mut C,
            raw: Result<Option<String>, ClipboardError>,
        | call_ensures(C::get_text, (x,), raw) && clipboard_text_result(raw) == result,
        ExtractorCall::Restore { snapshot, result } => exists|x: &mut C, s: &ClipboardSnapshot|
            call_ensures(C::restore, (x, s), result) && opt_text(s.text) == snapshot,
        ExtractorCall::CollapseSelection { result } => exists|x: &mut I|
            call_ensures(I::collapse_selection, (x,), result),
    }
}

/// Every recorded call was made.
pub open spec fn extractor_calls_made<C: ClipboardBackend, I: InputSimulator>(
    d: Seq<ExtractorCall>,
) -> bool {
    forall|i: int| 0 <= i < d.len() ==> extractor_call_made::<C, I>(#[trigger] d[i])
}

/// The calls from index `k` on clean up after a failure: the selection is
/// collapsed, then the clipboard is given back what it held before, whatever
/// either call returns, and nothing follows.
pub open spec fn cleaned_up(d: Seq<ExtractorCall>, k: int, original: Option<Seq<char>>) -> bool {
    &&& d.len() == k + 2
    &&& d[k] is CollapseSelection
    &&& d[k + 1] matches ExtractorCall::Restore { snapshot, .. } && snapshot == original
}

/// The calls from index `k` on, once the copy was made: read the clipboard,
/// find the trigger at the end of the copied text, restore the clipboard.
pub open spec fn read_calls(
    d: Seq<ExtractorCall>,
    k: int,
    original: Option<Seq<char>>,
    context: ContextView,
    r: Result<SnapshotView, ExtractionError>,
) -> bool {
    d.len() > k && match d[k] {
        ExtractorCall::GetText { result: Err(_) } => cleaned_up(d, k + 1, original) && r == Err::<
            SnapshotView,
            ExtractionError,
        >(ExtractionError::ClipboardUnavailable),
        ExtractorCall::GetText { result: Ok(None) } => cleaned_up(d, k + 1, original) && r == Err::<
            SnapshotView,
            ExtractionError,
        >(ExtractionError::TriggerMissingFromSnapshot),
        ExtractorCall::GetText { result: Ok(Some(text)) } => match input_before_trigger(
            text,
            context.trigger_match.trigger_text,
        ) {
            None => cleaned_up(d, k + 1, original) && r == Err::<SnapshotView, ExtractionError>(
                ExtractionError::TriggerMissingFromSnapshot,
            ),
            Some(input) => d.len() > k + 1 && match d[k + 1] {
                ExtractorCall::Restore { snapshot, result } => snapshot == original && match result {
                    Err(_) => cleaned_up(d, k + 2, original) && r == Err::<
                        SnapshotView,
                        ExtractionError,
                    >(ExtractionError::ClipboardUnavailable),
                    Ok(_) => d.len() == k + 2 && r == Ok::<SnapshotView, ExtractionError>(
                        SnapshotView {
                            operation_id: context.operation_id,
                            app_id: context.app_id,
                            window_id: context.window_id,
                            extracted_text: text,
                            replacement_target_text: text,
                            transform_input: input,
                            trigger_text: context.trigger_match.trigger_text,
                        },
                    ),
                },
                _ => false,
            },
        },
        _ => false,
    }
}

/// The calls of one clipboard extraction and its result: take a snapshot of
/// the clipboard, select the whole field and copy it, each after its wait,
/// then read the copy; every failure after the snapshot is cleaned up.
pub open spec fn extraction_calls(
    d: Seq<ExtractorCall>,
    select_all_wait: u64,
    clipboard_read_wait: u64,
    context: ContextView,
    r: Result<SnapshotView, ExtractionError>,
) -> bool {
    d.len() >= 1 && match d[0] {
        ExtractorCall::Snapshot { result: Err(_) } => d.len() == 1 && r == Err::<
            SnapshotView,
            ExtractionError,
        >(ExtractionError::ClipboardUnavailable),
        ExtractorCall::Snapshot { result: Ok(original) } => {
            &&& d.len() >= 3
            &&& d[1] == ExtractorCall::Pause { duration_ms: select_all_wait }
            &&& match d[2] {
                ExtractorCall::SelectAll { result: Err(_) } => cleaned_up(d, 3, original) && r
                    == Err::<SnapshotView, ExtractionError>(ExtractionError::CopyFailed),
                ExtractorCall::SelectAll { result: Ok(_) } => {
                    &&& d.len() >= 5
                    &&& d[3] == ExtractorCall::Pause { duration_ms: select_all_wait }
                    &&& match d[4] {
                        ExtractorCall::Copy { result: Err(_) } => cleaned_up(d, 5, original) && r
                            == Err::<SnapshotView, ExtractionError>(ExtractionError::CopyFailed),
                        ExtractorCall::Copy { result: Ok(_) } => {
                            &&& d.len() >= 6
                            &&& d[5] == ExtractorCall::Pause { duration_ms: clipboard_read_wait }
                            &&& read_calls(d, 6, original, context, r)
                        },
                        _ => false,
                    }
                },
                _ => false,
            }
        },
        _ => false,
    }
}

/// An extractor that selects the whole field, copies it, and reads the copy
/// from the clipboard, which it then restores.
#[derive(Clone)]
pub struct ClipboardTextExtractor<C, I> {
    clipboard: C,
    input: I,
    select_all_wait: u64,
    clipboard_read_wait: u64,
    calls: Ghost<Seq<ExtractorCall>>,
}

impl<C, I> ClipboardTextExtractor<C, I> {
    pub fn new(clipboard: C, input: I) -> (e: ClipboardTextExtractor<C, I>)
        ensures
            e.clipboard() == clipboard,
            e.input() == input,
            e.select_all_wait() == 0,
            e.clipboard_read_wait() == 0,
            e.calls() == Seq::<ExtractorCall>::empty(),
    {
        Self::with_delays(clipboard, input, 0, 0)
    }

    /// An extractor that waits the given milliseconds around selecting and
    /// before reading the clipboard.
    pub fn with_delays(
        clipboard: C,
        input: I,
        select_all_wait: u64,
        clipboard_read_wait: u64,
    ) -> (e: ClipboardTextExtractor<C, I>)
        ensures
            e.clipboard() == clipboard,
            e.input() == input,
            e.select_all_wait() == select_all_wait,
            e.clipboard_read_wait() == clipboard_read_wait,
            e.calls() == Seq::<ExtractorCall>::empty(),
    {
        ClipboardTextExtractor {
            clipboard,
            input,
            select_all_wait,
            clipboard_read_wait,
            calls: Ghost(Seq::empty()),
        }
    }

    pub closed spec fn clipboard(&self) -> C {
        self.clipboard
    }

    pub closed spec fn input(&self) -> I {
        self.input
    }

    pub closed spec fn select_all_wait(&self) -> u64 {
        self.select_all_wait
    }

    pub closed spec fn clipboard_read_wait(&self) -> u64 {
        self.clipboard_read_wait
    }

    /// The calls that the latest extraction made, in order.
    pub closed spec fn calls(&self) -> Seq<ExtractorCall> {
        self.calls@
    }

    pub fn into_parts(self) -> (parts: (C, I))
        ensures
            parts == (self.clipboard(), self.input()),
    {
        (self.clipboard, self.input)
    }

    fn record(&mut self, call: Ghost<ExtractorCall>)
        ensures
            final(self).calls@ == old(self).calls@.push(call@),
            final(self).select_all_wait == old(self).select_all_wait,
            final(self).clipboard_read_wait == old(self).clipboard_read_wait,
    {
        self.calls = Ghost(self.calls@.push(call@));
    }
}

impl<C: ClipboardBackend, I: InputSimulator> ClipboardTextExtractor<C, I> {
    fn record_made(&mut self, call: Ghost<ExtractorCall>)
        requires
            extractor_call_made::<C, I>(call@),
            extractor_calls_made::<C, I>(old(self).calls@),
        ensures
            final(self).calls@ == old(self).calls@.push(call@),
            extractor_calls_made::<C, I>(final(self).calls@),
            final(self).select_all_wait == old(self).select_all_wait,
            final(self).clipboard_read_wait == old(self).clipboard_read_wait,
    {
        self.record(call);
    }

    fn pause_recorded(&mut self, duration_ms: u64)
        requires
            extractor_calls_made::<C, I>(old(self).calls@),
        ensures
            final(self).calls@ == old(self).calls@.push(ExtractorCall::Pause { duration_ms }),
            extractor_calls_made::<C, I>(final(self).calls@),
            final(self).select_all_wait == old(self).select_all_wait,
            final(self).clipboard_read_wait == old(self).clipboard_read_wait,
    {
        self.input.pause(duration_ms);
        self.record_made(Ghost(ExtractorCall::Pause { duration_ms }));
    }

    fn restore_recorded(&mut self, original_clipboard: &ClipboardSnapshot) -> (r: Result<
        (),
        ClipboardError,
    >)
        requires
            extractor_calls_made::<C, I>(old(self).calls@),
        ensures
            final(self).calls@ == old(self).calls@.push(
                ExtractorCall::Restore { snapshot: opt_text(original_clipboard.text), result: r },
            ),
            extractor_calls_made::<C, I>(final(self).calls@),
            final(self).select_all_wait == old(self).select_all_wait,
            final(self).clipboard_read_wait == old(self).clipboard_read_wait,
    {
        let r = self.clipboard.restore(original_clipboard);
        self.record_made(
            Ghost(
                ExtractorCall::Restore { snapshot: opt_text(original_clipboard.text), result: r },
            ),
        );
        r
    }

    fn cleanup_failed_extraction(&mut self, original_clipboard: &ClipboardSnapshot)
        requires
            extractor_calls_made::<C, I>(old(self).calls@),
        ensures
            final(self).calls@.len() == old(self).calls@.len() + 2,
            forall|i: int|
                0 <= i < old(self).calls@.len() ==> #[trigger] final(self).calls@[i]
                    == old(self).calls@[i],
            cleaned_up(
                final(self).calls@,
                old(self).calls@.len() as int,
                opt_text(original_clipboard.text),
            ),
            extractor_calls_made::<C, I>(final(self).calls@),
            final(self).select_all_wait == old(self).select_all_wait,
            final(self).clipboard_read_wait == old(self).clipboard_read_wait,
    {
        let collapsed = self.input.collapse_selection();
        self.record_made(Ghost(ExtractorCall::CollapseSelection { result: collapsed }));
        let _ = self.restore_recorded(original_clipboard);
    }
}

impl<C: ClipboardBackend, I: InputSimulator> TextExtractor for ClipboardTextExtractor<C, I> {
    fn extract(&mut self, context: ExtractionContext) -> (r: Result<
        OperationSnapshot,
        ExtractionError,
    >)
        ensures
            final(self).select_all_wait() == old(self).select_all_wait(),
            final(self).clipboard_read_wait() == old(self).clipboard_read_wait(),
            extraction_calls(
                final(self).calls(),
                old(self).select_all_wait(),
                old(self).clipboard_read_wait(),
                context@,
                snapshot_result(r),
            ),
            extractor_calls_made::<C, I>(final(self).calls()),
    {
        self.calls = Ghost(Seq::empty());
        let snapshot_taken = self.clipboard.snapshot();
        self.record_made(Ghost(ExtractorCall::Snapshot { result: clipboard_snapshot_result(snapshot_taken) }));
        let original_clipboard = match snapshot_taken {
            Ok(snapshot) => snapshot,
            Err(error) => {
                return Err(ExtractionError::from(error));
            },
        };
        let ghost original = opt_text(original_clipboard.text);

        self.pause_recorded(self.select_all_wait);
        let selected = self.input.select_all();
        self.record_made(Ghost(ExtractorCall::SelectAll { result: selected }));
        if let Err(error) = selected {
            self.cleanup_failed_extraction(&original_clipboard);
            return Err(ExtractionError::from(error));
        }
        self.pause_recorded(self.select_all_wait);
        let copied = self.input.copy();
        self.record_made(Ghost(ExtractorCall::Copy { result: copied }));
        if let Err(error) = copied {
            self.cleanup_failed_extraction(&original_clipboard);
            return Err(ExtractionError::from(error));
        }
        self.pause_recorded(self.clipboard_read_wait);

        let read = self.clipboard.get_text();
        self.record_made(Ghost(ExtractorCall::GetText { result: clipboard_text_result(read) }));
        let copied_text = match read {
            Ok(Some(text)) => text,
            Ok(None) => {
                self.cleanup_failed_extraction(&original_clipboard);
                return Err(ExtractionError::TriggerMissingFromSnapshot);
            },
            Err(error) => {
                self.cleanup_failed_extraction(&original_clipboard);
                return Err(ExtractionError::from(error));
            },
        };

        let transform_input = match transform_input_from_snapshot(
            copied_text.as_str(),
            context.trigger_match.trigger_text.as_str(),
        ) {
            Ok(transform_input) => transform_input,
            Err(error) => {
                self.cleanup_failed_extraction(&original_clipboard);
                return Err(error);
            },
        };

        if let Err(error) = self.restore_recorded(&original_clipboard) {
            self.cleanup_failed_extraction(&original_clipboard);
            return Err(ExtractionError::from(error));
        }

        let ExtractionContext { operation_id, app_id, window_id, trigger_match } = context;
        Ok(
            OperationSnapshot {
                operation_id,
                app_id,
                window_id,
                replacement_target_text: copied_text.clone(),
                extracted_text: copied_text,
                transform_input,
                trigger_text: trigger_match.trigger_text,
            },
        )
    }
}

/// The text before `trigger_text` at the end of the copied field text.
pub fn transform_input_from_snapshot(copied_text: &str, trigger_text: &str) -> (r: Result<
    String,
    ExtractionError,
>)
    ensures
        match input_before_trigger(copied_text@, trigger_text@) {
            Some(input) => r matches Ok(s) && s@ == input,
            None => r == Err::<String, ExtractionError>(ExtractionError::TriggerMissingFromSnapshot),
        },
{
    let v = chars_of(copied_text);
    let trigger = chars_of(trigger_text);
    let t_end = trim_end_at(&v, 0, v.len());
    assert(v@.subrange(0, v@.len() as int) =~= copied_text@);
    let ghost t = v@.subrange(0, t_end as int);
    if trigger.len() > t_end {
        return Err(ExtractionError::TriggerMissingFromSnapshot);
    }
    let at = t_end - trigger.len();
    let mut k: usize = 0;
    while k < trigger.len()
        invariant
            at + trigger@.len() == t_end <= v@.len(),
            t == v@.subrange(0, t_end as int),
            t == trim_end(copied_text@),
            trigger@ == trigger_text@,
            k <= trigger@.len(),
            forall|j: int| 0 <= j < k ==> v@[at + j] == trigger@[j],
        decreases trigger.len() - k,
    {
        if v[at + k] != trigger[k] {
            assert(t.subrange(at as int, t_end as int)[k as int] != trigger@[k as int]);
            assert(t.subrange(t.len() - trigger@.len(), t.len() as int) != trigger@);
            assert(!ends_with(t, trigger@));
            return Err(ExtractionError::TriggerMissingFromSnapshot);
        }
        k = k + 1;
    }
    assert(t.subrange(at as int, t_end as int) =~= trigger@);
    let input_end = trim_end_at(&v, 0, at);
    assert(t.take(at as int) =~= v@.subrange(0, at as int));
    Ok(String::from_str(copied_text.substring_char(0, input_end)))
}

impl From<ClipboardError> for ExtractionError {
    fn from(error: ClipboardError) -> (e: ExtractionError) {
        ExtractionError::ClipboardUnavailable
    }
}

impl vstd::std_specs::convert::FromSpecImpl<ClipboardError> for ExtractionError {
    open spec fn obeys_from_spec() -> bool {
        true
    }

    open spec fn from_spec(error: ClipboardError) -> ExtractionError {
        ExtractionError::ClipboardUnavailable
    }
}

impl From<InputSimulationError> for ExtractionError {
    fn from(error: InputSimulationError) -> (e: ExtractionError) {
        ExtractionError::CopyFailed
    }
}

impl vstd::std_specs::convert::FromSpecImpl<InputSimulationError> for ExtractionError {
    open spec fn obeys_from_spec() -> bool {
        true
    }

    open spec fn from_spec(error: InputSimulationError) -> ExtractionError {
        ExtractionError::CopyFailed
    }
}

} // verus!

verus! {

/// Reading back the text that the buffer extractor writes gives the input it
/// was built from: for an input without trailing white space and a trigger
/// that ends in a visible character, `input_before_trigger` undoes
/// `input + " " + trigger`.
pub proof fn lemma_buffer_text_round_trip(input: Seq<char>, trigger: Seq<char>)
    requires
        trim_end(input) == input,
        trigger.len() > 0,
        !crate::text::is_white_space(trigger.last()),
    ensures
        input_before_trigger(input + seq![' '] + trigger, trigger) == Some(input),
{
    let text = input + seq![' '] + trigger;
    assert(text.last() == trigger.last());
    assert(trim_end(text) == text);
    assert(text.subrange(text.len() - trigger.len(), text.len() as int) =~= trigger);
    assert(text.take(text.len() - trigger.len()) =~= input.push(' '));
    crate::text::lemma_trim_end_push_white_space(input, ' ');
}

/// The clipboard is given back what it held: once an extraction has taken
/// its snapshot of the clipboard, its last call restores that snapshot,
/// whether the extraction succeeded or not, and that restore was made.
pub proof fn lemma_extraction_restores_clipboard<C: ClipboardBackend, I: InputSimulator>(
    d: Seq<ExtractorCall>,
    select_all_wait: u64,
    clipboard_read_wait: u64,
    context: ContextView,
    r: Result<SnapshotView, ExtractionError>,
    original: Option<Seq<char>>,
)
    requires
        extraction_calls(d, select_all_wait, clipboard_read_wait, context, r),
        extractor_calls_made::<C, I>(d),
        d[0] == (ExtractorCall::Snapshot { result: Ok(original) }),
    ensures
        d.last() matches ExtractorCall::Restore { snapshot, .. } && snapshot == original,
        extractor_call_made::<C, I>(d.last()),
{
    assert(extractor_call_made::<C, I>(d[d.len() - 1]));
}

} // verus!
