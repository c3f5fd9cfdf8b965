use stringcast::commands::{CommandDefinition, CommandRegistry};
use stringcast::detection::DYNAMIC_DEBOUNCE_MS;
use stringcast::extraction::BufferTextExtractor;
use stringcast::input::{
    GuardedInputSimulator, InputController, InputControllerOutcome, InputEvent, InputSimulator,
    KeystrokeBuffer, NavigationKey, RecordedInputAction, RecordingInputSimulator,
    SyntheticInputGuard,
};
use stringcast::pipeline::{PipelineOutcome, TextTransformer, TransformError, TransformationPipeline};
use stringcast::platform::{
    ExclusionMatcher, ForegroundApp, OperationGate, StaticForegroundAppProvider,
};
use stringcast::replacement::NoopTextReplacer;

const NOW: u64 = 1_000_000;

#[derive(Debug, Clone)]
struct FakeTransformer;

impl TextTransformer for FakeTransformer {
    fn transform(
        &mut self,
        _command: &CommandDefinition,
        input: &str,
    ) -> Result<String, TransformError> {
        Ok(format!("fixed: {input}"))
    }
}

fn app(app_id: &str) -> ForegroundApp {
    ForegroundApp {
        app_id: app_id.to_string(),
        window_id: None,
        display_name: None,
        secure_input: false,
        elevated: false,
    }
}

type TestController =
    InputController<BufferTextExtractor, FakeTransformer, NoopTextReplacer, StaticForegroundAppProvider>;

fn pipeline() -> TransformationPipeline<BufferTextExtractor, FakeTransformer, NoopTextReplacer> {
    TransformationPipeline::new(
        CommandRegistry::new(),
        BufferTextExtractor,
        FakeTransformer,
        NoopTextReplacer::default(),
    )
}

fn controller() -> TestController {
    let foreground_provider = StaticForegroundAppProvider::new(app("com.example.App"));
    let gate = OperationGate::new(true, ExclusionMatcher::new(Vec::new()));
    InputController::new(
        pipeline(),
        foreground_provider,
        gate,
        SyntheticInputGuard::new(250, 10_000),
    )
}

#[test]
fn text_events_update_buffer_until_trigger_matches() {
    let now = NOW;
    let mut controller = controller();

    let first = controller
        .handle_event(InputEvent::Text("hello ".to_string()), now)
        .unwrap();
    let second = controller
        .handle_event(InputEvent::Text("?fix".to_string()), now)
        .unwrap();

    assert_eq!(
        first,
        InputControllerOutcome::BufferUpdated("hello ".to_string())
    );
    assert!(matches!(
        second,
        InputControllerOutcome::Pipeline(PipelineOutcome::Replaced { .. })
    ));
    assert_eq!(controller.buffer(), "");
}

#[test]
fn pending_dynamic_trigger_replaces_after_debounce() {
    let now = NOW;
    let mut controller = controller();

    let first = controller
        .handle_event(
            InputEvent::Text("hello ?ask:make this warmer".to_string()),
            now,
        )
        .unwrap();

    assert_eq!(
        first,
        InputControllerOutcome::Pipeline(PipelineOutcome::PendingDynamic)
    );
    assert!(controller.pending_dynamic_deadline().is_some());

    let outcome = controller
        .handle_pending_timeout(now + DYNAMIC_DEBOUNCE_MS + 1)
        .unwrap();

    assert!(matches!(
        outcome,
        InputControllerOutcome::Pipeline(PipelineOutcome::Replaced { .. })
    ));
    assert_eq!(controller.buffer(), "");
}

#[test]
fn backspace_extends_pending_dynamic_debounce() {
    let now = NOW;
    let mut controller = controller();

    controller
        .handle_event(
            InputEvent::Text("hello ?ask:make this warmer".to_string()),
            now,
        )
        .unwrap();
    let original_deadline = controller.pending_dynamic_deadline().unwrap();

    controller
        .handle_event(InputEvent::Backspace, now + 100)
        .unwrap();
    let updated_deadline = controller.pending_dynamic_deadline().unwrap();

    assert!(updated_deadline > original_deadline);

    let early = controller
        .handle_pending_timeout(original_deadline + 1)
        .unwrap();
    assert!(matches!(early, InputControllerOutcome::BufferUpdated(_)));

    let final_outcome = controller
        .handle_pending_timeout(updated_deadline + 1)
        .unwrap();
    assert!(matches!(
        final_outcome,
        InputControllerOutcome::Pipeline(PipelineOutcome::Replaced { .. })
    ));
}

#[test]
fn navigation_clears_buffer() {
    let now = NOW;
    let mut controller = controller();

    controller
        .handle_event(InputEvent::Text("hello".to_string()), now)
        .unwrap();
    let outcome = controller
        .handle_event(InputEvent::Navigation(NavigationKey::ArrowLeft), now)
        .unwrap();

    assert_eq!(outcome, InputControllerOutcome::BufferCleared);
    assert_eq!(controller.buffer(), "");
}

#[test]
fn synthetic_events_are_ignored() {
    let guard = SyntheticInputGuard::new(250, 10_000);
    let foreground_provider = StaticForegroundAppProvider::new(app("com.example.App"));
    let gate = OperationGate::new(true, ExclusionMatcher::new(Vec::new()));
    let now = NOW;
    let _token = guard.acquire(now);
    let mut controller = InputController::new(pipeline(), foreground_provider, gate, guard);

    let outcome = controller
        .handle_event(InputEvent::Text("?fix".to_string()), now)
        .unwrap();

    assert_eq!(outcome, InputControllerOutcome::IgnoredSynthetic);
    assert_eq!(controller.buffer(), "");
}

#[test]
fn blocked_foreground_context_clears_buffer() {
    let foreground_provider = StaticForegroundAppProvider::new(app("1Password.exe"));
    let gate = OperationGate::new(true, ExclusionMatcher::from_config(&Default::default()));
    let guard = SyntheticInputGuard::default();
    let now = guard.now();
    let mut controller = InputController::new(pipeline(), foreground_provider, gate, guard);

    let outcome = controller
        .handle_event(InputEvent::Text("secret ?fix".to_string()), now)
        .unwrap();

    assert!(matches!(
        outcome,
        InputControllerOutcome::Pipeline(PipelineOutcome::Blocked(_))
    ));
    assert_eq!(controller.buffer(), "");
}

#[test]
fn timeout_without_pending_trigger_changes_nothing() {
    let mut controller = controller();
    controller
        .handle_event(InputEvent::Text("plain".to_string()), NOW)
        .unwrap();

    let outcome = controller.handle_pending_timeout(NOW + 10_000).unwrap();

    assert_eq!(outcome, InputControllerOutcome::BufferUpdated("plain".to_string()));
    assert_eq!(controller.buffer(), "plain");
    assert_eq!(controller.pending_dynamic_deadline(), None);
}

#[test]
fn pending_deadline_is_debounce_after_typing() {
    let mut controller = controller();
    controller
        .handle_event(InputEvent::Text("x ?translate:de".to_string()), NOW)
        .unwrap();

    assert_eq!(
        controller.pending_dynamic_deadline(),
        Some(NOW + DYNAMIC_DEBOUNCE_MS)
    );
}

#[test]
fn backspace_without_pending_trigger_keeps_no_deadline() {
    let mut controller = controller();
    controller
        .handle_event(InputEvent::Text("abc".to_string()), NOW)
        .unwrap();

    let outcome = controller.handle_event(InputEvent::Backspace, NOW).unwrap();

    assert_eq!(outcome, InputControllerOutcome::BufferUpdated("ab".to_string()));
    assert_eq!(controller.pending_dynamic_deadline(), None);
}

#[test]
fn replaced_text_comes_from_transformer() {
    let mut controller = controller();
    let outcome = controller
        .handle_event(InputEvent::Text("i dont no ?fix".to_string()), NOW)
        .unwrap();

    assert_eq!(
        outcome,
        InputControllerOutcome::Pipeline(PipelineOutcome::Replaced {
            trigger_text: "?fix".to_string(),
            replacement_text: "fixed: i dont no".to_string(),
        })
    );
}

#[test]
fn suppresses_while_token_is_active() {
    let guard = SyntheticInputGuard::default();
    let now = NOW;
    let token = guard.acquire(now);

    assert!(guard.is_suppressed(now + 1));
    drop(token);
}

#[test]
fn watchdog_clears_leaked_active_guard() {
    let guard = SyntheticInputGuard::new(250, 1_000);
    let now = NOW;
    let token = guard.acquire(now);
    std::mem::forget(token);

    assert!(guard.is_suppressed(now + 2_000));
}

#[test]
fn future_active_since_does_not_panic() {
    let guard = SyntheticInputGuard::default();
    let now = NOW;
    let token = guard.acquire(now + 1);

    assert!(guard.is_suppressed(now));
    drop(token);
}

#[test]
fn released_token_suppresses_only_during_grace_window() {
    let guard = SyntheticInputGuard::new(250, 10_000);
    let token = guard.acquire(NOW);
    token.release(NOW + 10);

    assert!(guard.is_suppressed(NOW + 260));
    assert!(!guard.is_suppressed(NOW + 261));
}

#[test]
fn fresh_guard_suppresses_nothing() {
    let guard = SyntheticInputGuard::default();

    assert!(!guard.is_suppressed(NOW));
    assert_eq!(guard.grace_window(), 250);
}

#[test]
fn stale_token_release_keeps_newer_operation_active() {
    let guard = SyntheticInputGuard::new(250, 10_000);
    let first = guard.acquire(NOW);
    let second = guard.acquire(NOW + 1);
    assert!(second.operation_id() > first.operation_id());
    first.release(NOW + 2);

    assert!(guard.is_suppressed(NOW + 5_000));
    second.release(NOW + 5_000);
    assert!(!guard.is_suppressed(NOW + 5_251));
}

#[test]
fn guarded_simulator_suppresses_generated_actions() {
    let guard = SyntheticInputGuard::new(250, 10_000);
    let mut simulator =
        GuardedInputSimulator::new(RecordingInputSimulator::default(), guard.clone());

    simulator.select_all().unwrap();

    assert!(guard.is_suppressed(guard.now()));
    assert_eq!(
        simulator.into_inner().actions,
        vec![RecordedInputAction::SelectAll]
    );
}

#[test]
fn recording_simulator_records_typed_text() {
    let mut simulator = RecordingInputSimulator::default();
    simulator.type_text("hi").unwrap();
    simulator.paste().unwrap();

    assert_eq!(
        simulator.actions,
        vec![
            RecordedInputAction::TypeText("hi".to_string()),
            RecordedInputAction::Paste
        ]
    );
}

#[test]
fn keystroke_buffer_appends_and_backspaces_characters() {
    let mut buffer = KeystrokeBuffer::new();
    buffer.append("héllo");
    buffer.backspace();
    assert_eq!(buffer.as_str(), "héll");
    buffer.clear();
    buffer.backspace();
    assert_eq!(buffer.as_str(), "");
}

#[test]
fn guard_clock_is_shared_by_clones_and_never_goes_back() {
    let guard = SyntheticInputGuard::default();
    let first = guard.now();
    let second = guard.clone().now();
    assert!(second >= first);
}
