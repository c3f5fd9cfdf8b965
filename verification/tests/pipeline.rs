use stringcast::commands::{CommandDefinition, CommandKind, CommandRegistry};
use stringcast::extraction::{BufferTextExtractor, ExtractionContext, ExtractionError, TextExtractor};
use stringcast::orchestrator::{OperationPhase, OperationSnapshot};
use stringcast::pipeline::{
    PipelineError, PipelineOutcome, TextTransformer, TransformError, TransformationPipeline,
};
use stringcast::platform::{
    ExclusionMatcher, ForegroundApp, ForegroundAppProvider, OperationGate, OperationGateDecision,
    PlatformContextError, StaticForegroundAppProvider,
};
use stringcast::replacement::NoopTextReplacer;

#[derive(Debug, Clone)]
struct FakeTransformer {
    output: Result<String, TransformError>,
    calls: Vec<(CommandKind, String)>,
}

impl TextTransformer for FakeTransformer {
    fn transform(
        &mut self,
        command: &CommandDefinition,
        input: &str,
    ) -> Result<String, TransformError> {
        self.calls.push((command.kind.clone(), input.to_string()));
        self.output.clone()
    }
}

#[derive(Debug, Clone)]
struct FailingExtractor {
    error: ExtractionError,
}

impl TextExtractor for FailingExtractor {
    fn extract(&mut self, _context: ExtractionContext) -> Result<OperationSnapshot, ExtractionError> {
        Err(self.error.clone())
    }
}

struct FailingProvider;

impl ForegroundAppProvider for FailingProvider {
    fn foreground_app(&mut self) -> Result<ForegroundApp, PlatformContextError> {
        Err(PlatformContextError::Unavailable)
    }
}

fn transformer(output: Result<String, TransformError>) -> FakeTransformer {
    FakeTransformer {
        output,
        calls: vec![],
    }
}

#[test]
fn full_pipeline_replaces_static_trigger() {
    let mut pipeline = TransformationPipeline::new(
        CommandRegistry::new(),
        BufferTextExtractor,
        transformer(Ok("I do not know.".to_string())),
        NoopTextReplacer::default(),
    );

    let outcome = pipeline
        .process_buffer(
            "i dont no ?fix",
            "com.example.App",
            Some("window-1".to_string()),
        )
        .unwrap();
    let (_, _, transformer, replacer) = pipeline.into_parts();

    assert_eq!(
        outcome,
        PipelineOutcome::Replaced {
            trigger_text: "?fix".to_string(),
            replacement_text: "I do not know.".to_string()
        }
    );
    assert_eq!(transformer.calls[0].1, "i dont no");
    assert_eq!(replacer.replacements[0].1, "I do not know.");
}

#[test]
fn pipeline_reports_pending_dynamic_without_side_effects() {
    let mut pipeline = TransformationPipeline::new(
        CommandRegistry::new(),
        BufferTextExtractor,
        transformer(Ok("Hola".to_string())),
        NoopTextReplacer::default(),
    );

    let outcome = pipeline
        .process_buffer("hello ?translate:es", "com.example.App", None)
        .unwrap();
    let (_, _, transformer, replacer) = pipeline.into_parts();

    assert_eq!(outcome, PipelineOutcome::PendingDynamic);
    assert!(transformer.calls.is_empty());
    assert!(replacer.replacements.is_empty());
}

#[test]
fn pipeline_finalizes_pending_dynamic_trigger() {
    let mut pipeline = TransformationPipeline::new(
        CommandRegistry::new(),
        BufferTextExtractor,
        transformer(Ok("Hola".to_string())),
        NoopTextReplacer::default(),
    );

    let outcome = pipeline
        .finalize_pending_buffer("hello ?translate:es", "com.example.App", None)
        .unwrap();
    let (_, _, transformer, replacer) = pipeline.into_parts();

    assert_eq!(
        outcome,
        PipelineOutcome::Replaced {
            trigger_text: "?translate:es".to_string(),
            replacement_text: "Hola".to_string()
        }
    );
    assert_eq!(transformer.calls.len(), 1);
    assert_eq!(replacer.replacements[0].1, "Hola");
}

#[test]
fn transform_failure_does_not_replace() {
    let mut pipeline = TransformationPipeline::new(
        CommandRegistry::new(),
        BufferTextExtractor,
        transformer(Err(TransformError::ProviderRejected)),
        NoopTextReplacer::default(),
    );

    let result = pipeline.process_buffer("hello ?fix", "com.example.App", None);
    let (_, _, _, replacer) = pipeline.into_parts();

    assert_eq!(
        result,
        Err(PipelineError::Transform(TransformError::ProviderRejected))
    );
    assert!(replacer.replacements.is_empty());
}

#[test]
fn progress_marker_is_replaced_by_final_output() {
    let mut pipeline = TransformationPipeline::with_progress_marker(
        CommandRegistry::new(),
        BufferTextExtractor,
        transformer(Ok("I do not know.".to_string())),
        NoopTextReplacer::default(),
        "[Stringcast working...]",
    );

    let outcome = pipeline
        .process_buffer("i dont no ?fix", "com.example.App", None)
        .unwrap();
    let (_, _, _, replacer) = pipeline.into_parts();

    assert_eq!(
        outcome,
        PipelineOutcome::Replaced {
            trigger_text: "?fix".to_string(),
            replacement_text: "I do not know.".to_string()
        }
    );
    assert_eq!(replacer.replacements.len(), 2);
    assert_eq!(
        replacer.replacements[0].1,
        "i dont no ?fix [Stringcast working...]"
    );
    assert_eq!(replacer.replacements[1].1, "I do not know.");
}

#[test]
fn progress_marker_is_restored_on_transform_failure() {
    let mut pipeline = TransformationPipeline::with_progress_marker(
        CommandRegistry::new(),
        BufferTextExtractor,
        transformer(Err(TransformError::ProviderRejected)),
        NoopTextReplacer::default(),
        "[Stringcast working...]",
    );

    let result = pipeline.process_buffer("hello ?fix", "com.example.App", None);
    let (_, _, _, replacer) = pipeline.into_parts();

    assert_eq!(
        result,
        Err(PipelineError::Transform(TransformError::ProviderRejected))
    );
    assert_eq!(replacer.replacements.len(), 2);
    assert_eq!(
        replacer.replacements[0].1,
        "hello ?fix [Stringcast working...]"
    );
    assert_eq!(replacer.replacements[1].1, "hello ?fix");
}

#[test]
fn extraction_failure_resets_active_operation() {
    let mut pipeline = TransformationPipeline::new(
        CommandRegistry::new(),
        FailingExtractor {
            error: ExtractionError::TriggerMissingFromSnapshot,
        },
        transformer(Ok("hello".to_string())),
        NoopTextReplacer::default(),
    );

    let first = pipeline.process_buffer("hello ?fix", "com.example.App", None);
    let second = pipeline.process_buffer("hello ?fix", "com.example.App", None);

    assert_eq!(
        first,
        Err(PipelineError::Extraction(
            ExtractionError::TriggerMissingFromSnapshot
        ))
    );
    assert_eq!(
        second,
        Err(PipelineError::Extraction(
            ExtractionError::TriggerMissingFromSnapshot
        ))
    );
}

#[test]
fn foreground_pipeline_blocks_excluded_apps_before_transforming() {
    let mut pipeline = TransformationPipeline::new(
        CommandRegistry::new(),
        BufferTextExtractor,
        transformer(Ok("hello".to_string())),
        NoopTextReplacer::default(),
    );
    let mut provider = StaticForegroundAppProvider::new(ForegroundApp {
        app_id: "1Password.exe".to_string(),
        window_id: None,
        display_name: None,
        secure_input: false,
        elevated: false,
    });
    let gate = OperationGate::new(true, ExclusionMatcher::from_config(&Default::default()));

    let outcome = pipeline
        .process_foreground_buffer("secret ?fix", &mut provider, &gate)
        .unwrap();
    let (_, _, transformer, replacer) = pipeline.into_parts();

    assert_eq!(
        outcome,
        PipelineOutcome::Blocked(OperationGateDecision::BlockedExcluded)
    );
    assert!(transformer.calls.is_empty());
    assert!(replacer.replacements.is_empty());
}

#[test]
fn blank_transform_output_is_an_error_and_restores_progress() {
    let mut pipeline = TransformationPipeline::with_progress_marker(
        CommandRegistry::new(),
        BufferTextExtractor,
        transformer(Ok(" \n\t".to_string())),
        NoopTextReplacer::default(),
        "[...]",
    );

    let result = pipeline.process_buffer("text ?shorten", "com.example.App", None);
    let (orchestrator, _, _, replacer) = pipeline.into_parts();

    assert_eq!(result, Err(PipelineError::Transform(TransformError::EmptyOutput)));
    assert_eq!(replacer.replacements[0].1, "text ?shorten [...]");
    assert_eq!(replacer.replacements[1].0, "text ?shorten [...]");
    assert_eq!(replacer.replacements[1].1, "text ?shorten");
    assert_eq!(orchestrator.phase(), OperationPhase::Idle);
}

#[test]
fn successful_operation_leaves_orchestrator_idle() {
    let mut pipeline = TransformationPipeline::new(
        CommandRegistry::new(),
        BufferTextExtractor,
        transformer(Ok("done".to_string())),
        NoopTextReplacer::default(),
    );

    pipeline.process_buffer("a ?fix", "app", None).unwrap();
    pipeline.process_buffer("b ?fix", "app", None).unwrap();
    let (orchestrator, _, transformer, _) = pipeline.into_parts();

    assert_eq!(orchestrator.phase(), OperationPhase::Idle);
    assert_eq!(orchestrator.active_operation_id(), None);
    assert_eq!(transformer.calls.len(), 2);
}

#[test]
fn platform_failure_is_reported() {
    let mut pipeline = TransformationPipeline::new(
        CommandRegistry::new(),
        BufferTextExtractor,
        transformer(Ok("x".to_string())),
        NoopTextReplacer::default(),
    );
    let gate = OperationGate::new(true, ExclusionMatcher::new(Vec::new()));

    let result = pipeline.process_foreground_buffer("a ?fix", &mut FailingProvider, &gate);

    assert_eq!(result, Err(PipelineError::Platform(PlatformContextError::Unavailable)));
}

#[test]
fn disabled_gate_blocks_everything() {
    let mut pipeline = TransformationPipeline::new(
        CommandRegistry::new(),
        BufferTextExtractor,
        transformer(Ok("x".to_string())),
        NoopTextReplacer::default(),
    );
    let mut provider = StaticForegroundAppProvider::new(ForegroundApp {
        app_id: "editor".to_string(),
        window_id: None,
        display_name: None,
        secure_input: false,
        elevated: false,
    });
    let gate = OperationGate::new(false, ExclusionMatcher::new(Vec::new()));

    let outcome = pipeline
        .finalize_pending_foreground_buffer("a ?ask:what is this", &mut provider, &gate)
        .unwrap();

    assert_eq!(outcome, PipelineOutcome::Blocked(OperationGateDecision::Disabled));
}
