use vstd::prelude::*;

use crate::clipboard::{ClipboardBackend, ClipboardError, ClipboardSnapshot};
use crate::extraction::clipboard_snapshot_result;
use crate::input::simulator::paused;
use crate::input::{InputSimulationError, InputSimulator};
use crate::orchestrator::OperationSnapshot;
use crate::text::opt_text;

verus! {

#[derive(Debug, Clone, Copy, PartialEq, Eq, Structural)]
pub enum ReplacementError {
    ClipboardUnavailable,
    InputFailed,
    TargetChanged,
}

/// Replaces the text of the focused field.
pub trait TextReplacer {
    /// Replaces `current_text`, which the field holds now, by `replacement_text`.
    fn replace_current(
        &mut self,
        snapshot: &OperationSnapshot,
        current_text: &str,
        replacement_text: &str,
    ) -> Result<(), ReplacementError>;
}

/// A replacer that only records what it was asked to do.
#[derive(Debug, Clone)]
pub struct NoopTextReplacer {
    /// Each replacement as (text replaced, text put in its place).
    pub replacements: Vec<(String, String)>,
}

impl Default for NoopTextReplacer {
    fn default() -> (r: NoopTextReplacer)
        ensures
            r.replacements@.len() == 0,
    {
        NoopTextReplacer { replacements: Vec::new() }
    }
}

impl TextReplacer for NoopTextReplacer {
    fn replace_current(
        &mut self,
        snapshot: &OperationSnapshot,
        current_text: &str,
        replacement_text: &str,
    ) -> (r: Result<(), ReplacementError>)
        ensures
            r is Ok,
            final(self).replacements@.len() == old(self).replacements@.len() + 1,
            final(self).replacements@.drop_last() == old(self).replacements@,
            final(self).replacements@.last().0@ == current_text@,
            final(self).replacements@.last().1@ == replacement_text@,
    {
        self.replacements.push((String::from_str(current_text), String::from_str(replacement_text)));
        Ok(())
    }
}

} // verus!

verus! {

/// One call the clipboard replacer made to its clipboard or its input
/// simulator, with what it handed over and what came back.
pub enum ReplacerCall {
    Snapshot { result: Result<Option<Seq<char>>, ClipboardError> },
    SetText { text: Seq<char>, result: Result<(), ClipboardError> },
    Pause { duration_ms: u64 },
    SelectAll { result: Result<(), InputSimulationError> },
    Paste { result: Result<(), InputSimulationError> },
    Restore { snapshot: Option<Seq<char>>, result: Result<(), ClipboardError> },
}

/// The recorded call was made: a call of the clipboard's or the input
/// simulator's method, on the recorded arguments, returned the recorded
/// result.
pub open spec fn replacer_call_made<C: ClipboardBackend, I: InputSimulator>(
    call: ReplacerCall,
) -> bool {
    match call {
        ReplacerCall::Snapshot { result } => exists|
            x: &mut C,
            raw: Result<ClipboardSnapshot, ClipboardError>,
        | call_ensures(C::snapshot, (x,), raw) && clipboard_snapshot_result(raw) == result,
        ReplacerCall::SetText { text, result } => exists|x: &mut C, t: &str|
            call_ensures(C::set_text, (x, t), result) && t@ == text,
        ReplacerCall::Pause { duration_ms } => paused::<I>(duration_ms),
        ReplacerCall::SelectAll { result } => exists|x: &mut I|
            call_ensures(I::select_all, (x,), result),
        ReplacerCall::Paste { result } => exists|x: &mut I| call_ensures(I::paste, (x,), result),
        ReplacerCall::Restore { snapshot, result } => exists|x: &mut C, s: &ClipboardSnapshot|
            call_ensures(C::restore, (x, s), result) && opt_text(s.text) == snapshot,
    }
}

/// Every recorded call was made.
pub open spec fn replacer_calls_made<C: ClipboardBackend, I: InputSimulator>(
    d: Seq<ReplacerCall>,
) -> bool {
    forall|i: int| 0 <= i < d.len() ==> replacer_call_made::<C, I>(#[trigger] d[i])
}

/// The call at index `k` is the last one and gives the clipboard back what
/// it held before.
pub open spec fn restored_at(d: Seq<ReplacerCall>, k: int, original: Option<Seq<char>>) -> bool {
    &&& d.len() == k + 1
    &&& d[k] matches ReplacerCall::Restore { snapshot, .. } && snapshot == original
}

/// The calls of one clipboard replacement and its result: take a snapshot of
/// the clipboard, put the replacement on it, select the whole field and
/// paste over it (each after its wait), wait, and give the clipboard back
/// what it held. A failure after the snapshot still restores the clipboard.
pub open spec fn replacement_calls(
    d: Seq<ReplacerCall>,
    select_all_wait: u64,
    clipboard_restore_wait: u64,
    replacement: Seq<char>,
    r: Result<(), ReplacementError>,
) -> bool {
    d.len() >= 1 && match d[0] {
        ReplacerCall::Snapshot { result: Err(_) } => d.len() == 1 && r == Err::<(), ReplacementError>(
            ReplacementError::ClipboardUnavailable,
        ),
        ReplacerCall::Snapshot { result: Ok(original) } => d.len() >= 2 && match d[1] {
            ReplacerCall::SetText { text, result } => text == replacement && match result {
                Err(_) => restored_at(d, 2, original) && r == Err::<(), ReplacementError>(
                    ReplacementError::ClipboardUnavailable,
                ),
                Ok(_) => {
                    &&& d.len() >= 4
                    &&& d[2] == ReplacerCall::Pause { duration_ms: select_all_wait }
                    &&& match d[3] {
                        ReplacerCall::SelectAll { result: Err(_) } => restored_at(d, 4, original)
                            && r == Err::<(), ReplacementError>(ReplacementError::InputFailed),
                        ReplacerCall::SelectAll { result: Ok(_) } => {
                            &&& d.len() >= 6
                            &&& d[4] == ReplacerCall::Pause { duration_ms: select_all_wait }
                            &&& match d[5] {
                                ReplacerCall::Paste { result: Err(_) } => restored_at(
                                    d,
                                    6,
                                    original,
                                ) && r == Err::<(), ReplacementError>(
                                    ReplacementError::InputFailed,
                                ),
                                ReplacerCall::Paste { result: Ok(_) } => {
                                    &&& d.len() == 8
                                    &&& d[6] == ReplacerCall::Pause {
                                        duration_ms: clipboard_restore_wait,
                                    }
                                    &&& d[7] matches ReplacerCall::Restore { snapshot, result }
                                        && snapshot == original && match result {
                                        Err(_) => r == Err::<(), ReplacementError>(
                                            ReplacementError::ClipboardUnavailable,
                                        ),
                                        Ok(_) => r == Ok::<(), ReplacementError>(()),
                                    }
                                },
                                _ => false,
                            }
                        },
                        _ => false,
                    }
                },
            },
            _ => false,
        },
        _ => false,
    }
}

/// A replacer that puts the replacement on the clipboard, selects the whole
/// field and pastes over it, then restores the clipboard.
#[derive(Clone)]
pub struct ClipboardTextReplacer<C, I> {
    clipboard: C,
    input: I,
    select_all_wait: u64,
    clipboard_restore_wait: u64,
    calls: Ghost<Seq<ReplacerCall>>,
}

impl<C, I> ClipboardTextReplacer<C, I> {
    pub fn new(clipboard: C, input: I) -> (r: ClipboardTextReplacer<C, I>)
        ensures
            r.clipboard() == clipboard,
            r.input() == input,
            r.select_all_wait() == 0,
            r.clipboard_restore_wait() == 0,
            r.calls() == Seq::<ReplacerCall>::empty(),
    {
        Self::with_delays(clipboard, input, 0, 0)
    }

    /// A replacer that waits `select_all_wait` milliseconds before selecting
    /// and before pasting, and `clipboard_restore_wait` before restoring the
    /// clipboard.
    pub fn with_delays(
        clipboard: C,
        input: I,
        select_all_wait: u64,
        clipboard_restore_wait: u64,
    ) -> (r: ClipboardTextReplacer<C, I>)
        ensures
            r.clipboard() == clipboard,
            r.input() == input,
            r.select_all_wait() == select_all_wait,
            r.clipboard_restore_wait() == clipboard_restore_wait,
            r.calls() == Seq::<ReplacerCall>::empty(),
    {
        ClipboardTextReplacer {
            clipboard,
            input,
            select_all_wait,
            clipboard_restore_wait,
            calls: Ghost(Seq::empty()),
        }
    }

    pub closed spec fn clipboard(&self) -> C {
        self.clipboard
    }

    pub closed spec fn input(&self) -> I {
        self.input
    }

    pub closed spec fn select_all_wait(&self) -> u64 {
        self.select_all_wait
    }

    pub closed spec fn clipboard_restore_wait(&self) -> u64 {
        self.clipboard_restore_wait
    }

    /// The calls that the latest replacement made, in order.
    pub closed spec fn calls(&self) -> Seq<ReplacerCall> {
        self.calls@
    }

    pub fn into_parts(self) -> (parts: (C, I))
        ensures
            parts == (self.clipboard(), self.input()),
    {
        (self.clipboard, self.input)
    }

    fn record(&mut self, call: Ghost<ReplacerCall>)
        ensures
            final(self).calls@ == old(self).calls@.push(call@),
            final(self).select_all_wait == old(self).select_all_wait,
            final(self).clipboard_restore_wait == old(self).clipboard_restore_wait,
    {
        self.calls = Ghost(self.calls@.push(call@));
    }
}

impl<C: ClipboardBackend, I: InputSimulator> ClipboardTextReplacer<C, I> {
    fn record_made(&mut self, call: Ghost<ReplacerCall>)
        requires
            replacer_call_made::<C, I>(call@),
            replacer_calls_made::<C, I>(old(self).calls@),
        ensures
            final(self).calls@ == old(self).calls@.push(call@),
            replacer_calls_made::<C, I>(final(self).calls@),
            final(self).select_all_wait == old(self).select_all_wait,
            final(self).clipboard_restore_wait == old(self).clipboard_restore_wait,
    {
        self.record(call);
    }

    fn pause_recorded(&mut self, duration_ms: u64)
        requires
            replacer_calls_made::<C, I>(old(self).calls@),
        ensures
            final(self).calls@ == old(self).calls@.push(ReplacerCall::Pause { duration_ms }),
            replacer_calls_made::<C, I>(final(self).calls@),
            final(self).select_all_wait == old(self).select_all_wait,
            final(self).clipboard_restore_wait == old(self).clipboard_restore_wait,
    {
        self.input.pause(duration_ms);
        self.record_made(Ghost(ReplacerCall::Pause { duration_ms }));
    }

    fn restore_recorded(&mut self, original: &ClipboardSnapshot) -> (r: Result<(), ClipboardError>)
        requires
            replacer_calls_made::<C, I>(old(self).calls@),
        ensures
            final(self).calls@ == old(self).calls@.push(
                ReplacerCall::Restore { snapshot: opt_text(original.text), result: r },
            ),
            replacer_calls_made::<C, I>(final(self).calls@),
            final(self).select_all_wait == old(self).select_all_wait,
            final(self).clipboard_restore_wait == old(self).clipboard_restore_wait,
    {
        let r = self.clipboard.restore(original);
        self.record_made(
            Ghost(ReplacerCall::Restore { snapshot: opt_text(original.text), result: r }),
        );
        r
    }
}

impl<C: ClipboardBackend, I: InputSimulator> TextReplacer for ClipboardTextReplacer<C, I> {
    fn replace_current(
        &mut self,
        snapshot: &OperationSnapshot,
        current_text: &str,
        replacement_text: &str,
    ) -> (r: Result<(), ReplacementError>)
        ensures
            final(self).select_all_wait() == old(self).select_all_wait(),
            final(self).clipboard_restore_wait() == old(self).clipboard_restore_wait(),
            replacement_calls(
                final(self).calls(),
                old(self).select_all_wait(),
                old(self).clipboard_restore_wait(),
                replacement_text@,
                r,
            ),
            replacer_calls_made::<C, I>(final(self).calls()),
    {
        self.calls = Ghost(Seq::empty());
        let taken = self.clipboard.snapshot();
        self.record_made(Ghost(ReplacerCall::Snapshot { result: clipboard_snapshot_result(taken) }));
        let original = match taken {
            Ok(original) => original,
            Err(_) => {
                return Err(ReplacementError::ClipboardUnavailable);
            },
        };
        let set = self.clipboard.set_text(replacement_text);
        self.record_made(Ghost(ReplacerCall::SetText { text: replacement_text@, result: set }));
        if set.is_err() {
            let _ = self.restore_recorded(&original);
            return Err(ReplacementError::ClipboardUnavailable);
        }
        self.pause_recorded(self.select_all_wait);
        let selected = self.input.select_all();
        self.record_made(Ghost(ReplacerCall::SelectAll { result: selected }));
        if selected.is_err() {
            let _ = self.restore_recorded(&original);
            return Err(ReplacementError::InputFailed);
        }
        self.pause_recorded(self.select_all_wait);
        let pasted = self.input.paste();
        self.record_made(Ghost(ReplacerCall::Paste { result: pasted }));
        if pasted.is_err() {
            let _ = self.restore_recorded(&original);
            return Err(ReplacementError::InputFailed);
        }
        self.pause_recorded(self.clipboard_restore_wait);
        match self.restore_recorded(&original) {
            Ok(()) => Ok(()),
            Err(_) => Err(ReplacementError::ClipboardUnavailable),
        }
    }
}

/// The clipboard is given back what it held: once a replacement has taken
/// its snapshot of the clipboard, its last call restores that snapshot,
/// whether the replacement succeeded or not, and that restore was made.
pub proof fn lemma_replacement_restores_clipboard<C: ClipboardBackend, I: InputSimulator>(
    d: Seq<ReplacerCall>,
    select_all_wait: u64,
    clipboard_restore_wait: u64,
    replacement: Seq<char>,
    r: Result<(), ReplacementError>,
    original: Option<Seq<char>>,
)
    requires
        replacement_calls(d, select_all_wait, clipboard_restore_wait, replacement, r),
        replacer_calls_made::<C, I>(d),
        d[0] == (ReplacerCall::Snapshot { result: Ok(original) }),
    ensures
        d.last() matches ReplacerCall::Restore { snapshot, .. } && snapshot == original,
        replacer_call_made::<C, I>(d.last()),
{
    assert(replacer_call_made::<C, I>(d[d.len() - 1]));
}

} // verus!
