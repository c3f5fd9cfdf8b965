use stringcast::clipboard::MemoryClipboard;
use stringcast::input::{
    InputSimulationError, InputSimulator, RecordedInputAction, RecordingInputSimulator,
};
use stringcast::orchestrator::OperationSnapshot;
use stringcast::replacement::{ClipboardTextReplacer, ReplacementError, TextReplacer};

fn snapshot() -> OperationSnapshot {
    OperationSnapshot {
        operation_id: 1,
        app_id: "com.example.App".to_string(),
        window_id: None,
        extracted_text: "i dont no ?fix".to_string(),
        replacement_target_text: "i dont no ?fix".to_string(),
        transform_input: "i dont no".to_string(),
        trigger_text: "?fix".to_string(),
    }
}

#[test]
fn clipboard_replacer_pastes_and_restores_clipboard() {
    let clipboard = MemoryClipboard::new(Some("before".to_string()));
    let mut replacer =
        ClipboardTextReplacer::with_delays(clipboard, RecordingInputSimulator::default(), 0, 0);

    let result = replacer.replace_current(&snapshot(), "i dont no ?fix", "I do not know.");
    let (clipboard, input) = replacer.into_parts();

    assert_eq!(result, Ok(()));
    assert_eq!(
        input.actions,
        vec![RecordedInputAction::SelectAll, RecordedInputAction::Paste]
    );
    assert_eq!(clipboard.text(), Some("before".to_string()));
}

/// Records what it is asked to do and fails to paste.
#[derive(Debug, Default)]
struct PasteFailingSimulator {
    actions: Vec<&'static str>,
    pauses: Vec<u64>,
}

impl InputSimulator for PasteFailingSimulator {
    fn select_all(&mut self) -> Result<(), InputSimulationError> {
        self.actions.push("select_all");
        Ok(())
    }

    fn copy(&mut self) -> Result<(), InputSimulationError> {
        self.actions.push("copy");
        Ok(())
    }

    fn paste(&mut self) -> Result<(), InputSimulationError> {
        self.actions.push("paste");
        Err(InputSimulationError::Blocked)
    }

    fn type_text(&mut self, _text: &str) -> Result<(), InputSimulationError> {
        self.actions.push("type_text");
        Ok(())
    }

    fn collapse_selection(&mut self) -> Result<(), InputSimulationError> {
        self.actions.push("collapse_selection");
        Ok(())
    }

    fn pause(&mut self, duration_ms: u64) {
        self.pauses.push(duration_ms);
    }
}

#[test]
fn clipboard_replacer_restores_clipboard_when_paste_fails() {
    let clipboard = MemoryClipboard::new(None);
    let mut replacer =
        ClipboardTextReplacer::with_delays(clipboard, PasteFailingSimulator::default(), 100, 150);

    let result = replacer.replace_current(&snapshot(), "i dont no ?fix", "I do not know.");
    let (clipboard, input) = replacer.into_parts();

    assert_eq!(result, Err(ReplacementError::InputFailed));
    assert_eq!(input.actions, vec!["select_all", "paste"]);
    assert_eq!(input.pauses, vec![100, 100]);
    assert_eq!(clipboard.text(), None);
}
