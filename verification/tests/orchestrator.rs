use stringcast::orchestrator::{
    OperationOrchestrator, OperationPhase, OperationSnapshot, OrchestratorError,
};

fn snapshot(operation_id: u64) -> OperationSnapshot {
    OperationSnapshot {
        operation_id,
        app_id: "app".to_string(),
        window_id: None,
        extracted_text: "x ?fix".to_string(),
        replacement_target_text: "x ?fix".to_string(),
        transform_input: "x".to_string(),
        trigger_text: "?fix".to_string(),
    }
}

#[test]
fn operation_runs_through_its_phases() {
    let mut orchestrator = OperationOrchestrator::new();
    let id = orchestrator.begin_static_extraction().unwrap();
    assert_eq!(id, 1);
    assert_eq!(orchestrator.phase(), OperationPhase::Extracting);
    assert!(orchestrator.snapshot().is_none());
    orchestrator.complete_extraction(snapshot(id)).unwrap();
    assert_eq!(orchestrator.snapshot().unwrap().operation_id, id);
    orchestrator.begin_replacement().unwrap();
    orchestrator.begin_verification().unwrap();
    orchestrator.complete().unwrap();
    assert_eq!(orchestrator.phase(), OperationPhase::Idle);
    assert_eq!(orchestrator.begin_static_extraction(), Ok(2));
}

#[test]
fn busy_orchestrator_refuses_second_operation() {
    let mut orchestrator = OperationOrchestrator::new();
    orchestrator.begin_static_extraction().unwrap();
    assert_eq!(
        orchestrator.begin_static_extraction(),
        Err(OrchestratorError::Busy)
    );
    orchestrator.fail();
    assert_eq!(orchestrator.phase(), OperationPhase::Idle);
    assert_eq!(orchestrator.active_operation_id(), None);
}

#[test]
fn steps_out_of_order_are_refused() {
    let mut orchestrator = OperationOrchestrator::new();
    assert_eq!(
        orchestrator.begin_replacement(),
        Err(OrchestratorError::InvalidTransition)
    );
    assert_eq!(orchestrator.complete(), Err(OrchestratorError::InvalidTransition));
    let id = orchestrator.begin_static_extraction().unwrap();
    assert_eq!(
        orchestrator.complete_extraction(snapshot(id + 1)),
        Err(OrchestratorError::OperationMismatch)
    );
    assert_eq!(
        orchestrator.begin_verification(),
        Err(OrchestratorError::InvalidTransition)
    );
}
