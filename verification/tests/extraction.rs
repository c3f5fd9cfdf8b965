use stringcast::clipboard::{ClipboardBackend, ClipboardError, ClipboardSnapshot, MemoryClipboard};
use stringcast::commands::{BuiltInCommand, CommandDefinition, CommandKind};
use stringcast::detection::TriggerMatch;
use stringcast::extraction::{
    transform_input_from_snapshot, BufferTextExtractor, ClipboardTextExtractor, ExtractionContext,
    ExtractionError, TextExtractor,
};
use stringcast::input::{
    InputSimulationError, InputSimulator, RecordedInputAction, RecordingInputSimulator,
};

#[derive(Debug, Clone)]
struct RestoreFailingClipboard {
    text: Option<String>,
}

impl ClipboardBackend for RestoreFailingClipboard {
    fn snapshot(&mut self) -> Result<ClipboardSnapshot, ClipboardError> {
        Ok(ClipboardSnapshot {
            text: self.text.clone(),
        })
    }

    fn get_text(&mut self) -> Result<Option<String>, ClipboardError> {
        Ok(self.text.clone())
    }

    fn set_text(&mut self, text: &str) -> Result<(), ClipboardError> {
        self.text = Some(text.to_string());
        Ok(())
    }

    fn restore(&mut self, _snapshot: &ClipboardSnapshot) -> Result<(), ClipboardError> {
        Err(ClipboardError::Unavailable)
    }
}

fn context() -> ExtractionContext {
    ExtractionContext {
        operation_id: 7,
        app_id: "com.example.App".to_string(),
        window_id: Some("window".to_string()),
        trigger_match: TriggerMatch {
            trigger_text: "?fix".to_string(),
            transform_input: "buffer fallback".to_string(),
            command: CommandDefinition {
                trigger: "?fix".to_string(),
                name: "Fix".to_string(),
                prompt: "Fix: {text}".to_string(),
                enabled: true,
                case_sensitive: true,
                raw_output: false,
                kind: CommandKind::BuiltIn(BuiltInCommand::Fix),
            },
        },
    }
}

#[test]
fn clipboard_extractor_uses_copied_field_snapshot() {
    let clipboard = MemoryClipboard::new(Some("actual field text ?fix".to_string()));
    let input = RecordingInputSimulator::default();
    let mut extractor = ClipboardTextExtractor::new(clipboard, input);

    let snapshot = extractor.extract(context()).unwrap();
    let (_, input) = extractor.into_parts();

    assert_eq!(snapshot.extracted_text, "actual field text ?fix");
    assert_eq!(snapshot.replacement_target_text, "actual field text ?fix");
    assert_eq!(snapshot.transform_input, "actual field text");
    assert_eq!(
        input.actions,
        vec![RecordedInputAction::SelectAll, RecordedInputAction::Copy]
    );
}

#[test]
fn clipboard_extractor_rejects_snapshot_without_trigger() {
    let clipboard = MemoryClipboard::new(Some("actual field text".to_string()));
    let input = RecordingInputSimulator::default();
    let mut extractor = ClipboardTextExtractor::new(clipboard, input);

    let result = extractor.extract(context());
    let (_, input) = extractor.into_parts();

    assert_eq!(result, Err(ExtractionError::TriggerMissingFromSnapshot));
    assert_eq!(
        input.actions,
        vec![
            RecordedInputAction::SelectAll,
            RecordedInputAction::Copy,
            RecordedInputAction::CollapseSelection
        ]
    );
}

#[test]
fn clipboard_extractor_accepts_trigger_without_input_text() {
    let clipboard = MemoryClipboard::new(Some("?fix".to_string()));
    let input = RecordingInputSimulator::default();
    let mut extractor = ClipboardTextExtractor::new(clipboard, input);

    let snapshot = extractor.extract(context()).unwrap();

    assert_eq!(snapshot.extracted_text, "?fix");
    assert_eq!(snapshot.replacement_target_text, "?fix");
    assert_eq!(snapshot.transform_input, "");
}

#[test]
fn clipboard_extractor_collapses_selection_when_restore_fails() {
    let clipboard = RestoreFailingClipboard {
        text: Some("actual field text ?fix".to_string()),
    };
    let input = RecordingInputSimulator::default();
    let mut extractor = ClipboardTextExtractor::new(clipboard, input);

    let result = extractor.extract(context());
    let (_, input) = extractor.into_parts();

    assert_eq!(result, Err(ExtractionError::ClipboardUnavailable));
    assert_eq!(
        input.actions,
        vec![
            RecordedInputAction::SelectAll,
            RecordedInputAction::Copy,
            RecordedInputAction::CollapseSelection
        ]
    );
}

#[test]
fn clipboard_extractor_restores_original_clipboard() {
    let clipboard = MemoryClipboard::new(Some("field ?fix".to_string()));
    let mut extractor = ClipboardTextExtractor::new(clipboard, RecordingInputSimulator::default());

    let snapshot = extractor.extract(context()).unwrap();
    let (clipboard, _) = extractor.into_parts();

    assert_eq!(snapshot.operation_id, 7);
    assert_eq!(snapshot.app_id, "com.example.App");
    assert_eq!(snapshot.window_id.as_deref(), Some("window"));
    assert_eq!(snapshot.trigger_text, "?fix");
    assert_eq!(clipboard.text().as_deref(), Some("field ?fix"));
}

#[test]
fn clipboard_extractor_fails_on_empty_clipboard() {
    let clipboard = MemoryClipboard::new(None);
    let mut extractor = ClipboardTextExtractor::new(clipboard, RecordingInputSimulator::default());

    assert_eq!(
        extractor.extract(context()),
        Err(ExtractionError::TriggerMissingFromSnapshot)
    );
}

#[test]
fn buffer_extractor_joins_input_and_trigger() {
    let mut extractor = BufferTextExtractor;

    let snapshot = extractor.extract(context()).unwrap();

    assert_eq!(snapshot.extracted_text, "buffer fallback ?fix");
    assert_eq!(snapshot.replacement_target_text, "buffer fallback ?fix");
    assert_eq!(snapshot.transform_input, "buffer fallback");
    assert_eq!(snapshot.trigger_text, "?fix");
}

#[test]
fn snapshot_input_drops_trailing_space_around_trigger() {
    assert_eq!(
        transform_input_from_snapshot("keep this  ?fix \n", "?fix"),
        Ok("keep this".to_string())
    );
    assert_eq!(
        transform_input_from_snapshot("no trigger here", "?fix"),
        Err(ExtractionError::TriggerMissingFromSnapshot)
    );
    assert_eq!(
        transform_input_from_snapshot("?fi", "?fix"),
        Err(ExtractionError::TriggerMissingFromSnapshot)
    );
}

#[test]
fn memory_clipboard_gives_back_what_was_set() {
    let mut clipboard = MemoryClipboard::new(Some("before".to_string()));
    let snapshot = clipboard.snapshot().unwrap();
    clipboard.set_text("after").unwrap();
    assert_eq!(clipboard.get_text().unwrap().as_deref(), Some("after"));
    clipboard.restore(&snapshot).unwrap();
    assert_eq!(clipboard.get_text().unwrap().as_deref(), Some("before"));
}

/// Records what it is asked to do and fails to copy.
#[derive(Debug, Default)]
struct CopyFailingSimulator {
    actions: Vec<&'static str>,
    pauses: Vec<u64>,
}

impl InputSimulator for CopyFailingSimulator {
    fn select_all(&mut self) -> Result<(), InputSimulationError> {
        self.actions.push("select_all");
        Ok(())
    }

    fn copy(&mut self) -> Result<(), InputSimulationError> {
        self.actions.push("copy");
        Err(InputSimulationError::Unavailable)
    }

    fn paste(&mut self) -> Result<(), InputSimulationError> {
        self.actions.push("paste");
        Ok(())
    }

    fn type_text(&mut self, _text: &str) -> Result<(), InputSimulationError> {
        self.actions.push("type_text");
        Ok(())
    }

    fn collapse_selection(&mut self) -> Result<(), InputSimulationError> {
        self.actions.push("collapse_selection");
        Ok(())
    }

    fn pause(&mut self, duration_ms: u64) {
        self.pauses.push(duration_ms);
    }
}

#[test]
fn clipboard_extractor_cleans_up_after_failed_copy() {
    let clipboard = MemoryClipboard::new(Some("before".to_string()));
    let mut extractor = ClipboardTextExtractor::with_delays(
        clipboard,
        CopyFailingSimulator::default(),
        100,
        300,
    );

    let result = extractor.extract(context());
    let (clipboard, input) = extractor.into_parts();

    assert_eq!(result, Err(ExtractionError::CopyFailed));
    assert_eq!(input.actions, vec!["select_all", "copy", "collapse_selection"]);
    assert_eq!(input.pauses, vec![100, 100]);
    assert_eq!(clipboard.text(), Some("before".to_string()));
}

#[test]
fn clipboard_extractor_keeps_context_fields() {
    let clipboard = MemoryClipboard::new(Some("field ?fix".to_string()));
    let mut extractor = ClipboardTextExtractor::with_delays(
        clipboard,
        RecordingInputSimulator::default(),
        100,
        300,
    );

    let snapshot = extractor.extract(context()).unwrap();

    assert_eq!(snapshot.transform_input, "field");
    assert_eq!(snapshot.operation_id, 7);
    assert_eq!(snapshot.app_id, "com.example.App");
    assert_eq!(snapshot.window_id, Some("window".to_string()));
    assert_eq!(snapshot.trigger_text, "?fix");
}
