use doorcam::error::DoorcamError;
use doorcam::orchestration::{
    registered_component_names, shutdown_exit_code, shutdown_sequence, startup_sequence, ComponentState,
    ComponentStates, ShutdownReason, StopOutcome,
};

#[test]
fn orchestration_test_component_state_enum() {
    let states = vec![
        ComponentState::Stopped,
        ComponentState::Starting,
        ComponentState::Running,
        ComponentState::Stopping,
        ComponentState::Failed,
    ];

    for state in &states {
        let debug_str = format!("{:?}", state);
        assert!(!debug_str.is_empty());
    }

    let original = ComponentState::Running;
    let cloned = original.clone();
    assert_eq!(original, cloned);

    assert_eq!(ComponentState::Running, ComponentState::Running);
    assert_ne!(ComponentState::Running, ComponentState::Failed);
}

#[test]
fn test_shutdown_reason_enum() {
    let reasons = vec![
        ShutdownReason::Signal("SIGTERM".to_string()),
        ShutdownReason::Error("Test error".to_string()),
        ShutdownReason::UserRequest,
        ShutdownReason::HealthCheck,
    ];

    for reason in &reasons {
        let debug_str = format!("{:?}", reason);
        assert!(!debug_str.is_empty());
    }

    let original = ShutdownReason::UserRequest;
    let cloned = original.clone();
    match (original, cloned) {
        (ShutdownReason::UserRequest, ShutdownReason::UserRequest) => {}
        _ => panic!("Clone failed for ShutdownReason::UserRequest"),
    }

    match ShutdownReason::Signal("TEST".to_string()) {
        ShutdownReason::Signal(sig) => assert_eq!(sig, "TEST"),
        _ => panic!("Expected Signal variant"),
    }

    match ShutdownReason::Error("test error".to_string()) {
        ShutdownReason::Error(msg) => assert_eq!(msg, "test error"),
        _ => panic!("Expected Error variant"),
    }
}

#[test]
fn tests_test_component_state_enum() {
    assert_eq!(format!("{:?}", ComponentState::Running), "Running");
    assert_eq!(format!("{:?}", ComponentState::Failed), "Failed");

    let running_state = ComponentState::Running;
    let cloned_state = running_state.clone();
    assert_eq!(running_state, cloned_state);

    assert_eq!(ComponentState::Running, ComponentState::Running);
    assert_ne!(ComponentState::Running, ComponentState::Failed);
}

#[test]
fn component_states_are_recorded_and_read_back() {
    let mut states = ComponentStates::new();
    states.set_component_state("camera", ComponentState::Starting);
    assert_eq!(states.get_component_state("camera"), Some(ComponentState::Starting));
    states.set_component_state("camera", ComponentState::Running);
    assert_eq!(states.get_component_state("camera"), Some(ComponentState::Running));
    states.set_component_state("analyzer", ComponentState::Running);
    states.set_component_state("streaming", ComponentState::Failed);

    let all = states.get_all_component_states();
    assert_eq!(all.len(), 3);
    assert_eq!(all.get("camera"), Some(ComponentState::Running));
    assert_eq!(all.get("analyzer"), Some(ComponentState::Running));
    assert_eq!(all.get("streaming"), Some(ComponentState::Failed));
    assert_eq!(states.get_component_state("test_component"), None);
}

#[test]
fn initialization_registers_components_as_stopped() {
    let mut states = ComponentStates::new();
    states.initialize(false);
    assert_eq!(states.get_all_component_states().len(), 6);
    assert_eq!(states.get_component_state("storage"), Some(ComponentState::Stopped));
    assert_eq!(states.get_component_state("keyboard"), None);
    states.initialize(true);
    assert_eq!(states.get_component_state("keyboard"), Some(ComponentState::Stopped));
}

#[test]
fn start_and_stop_orders() {
    assert_eq!(startup_sequence(false), vec!["camera", "streaming", "analyzer", "display", "capture", "storage"]);
    assert_eq!(
        shutdown_sequence(true),
        vec!["keyboard", "streaming", "capture", "display", "analyzer", "camera", "storage"]
    );
    assert_eq!(shutdown_sequence(false)[0], "streaming");
    assert_eq!(registered_component_names(true)[5], "keyboard");
}

#[test]
fn stop_outcomes_set_the_state_and_the_error() {
    let mut states = ComponentStates::new();
    assert!(states.record_stop("camera", StopOutcome::Stopped).is_ok());
    assert_eq!(states.get_component_state("camera"), Some(ComponentState::Stopped));

    match states.record_stop("display", StopOutcome::TimedOut) {
        Err(DoorcamError::System { message }) => assert_eq!(message, "display component stop timeout"),
        _ => panic!("expected a timeout error"),
    }
    assert_eq!(states.get_component_state("display"), Some(ComponentState::Failed));

    let r = states.record_stop("capture", StopOutcome::Failed(DoorcamError::system("boom")));
    assert!(matches!(r, Err(DoorcamError::System { .. })));
    assert_eq!(states.get_component_state("capture"), Some(ComponentState::Failed));
}

#[test]
fn exit_code_is_one_when_any_stop_failed() {
    assert_eq!(shutdown_exit_code(&vec![true, true, true]), 0);
    assert_eq!(shutdown_exit_code(&vec![true, false, true]), 1);
    assert_eq!(shutdown_exit_code(&vec![]), 0);
}
