use device_orchestrator::shutdown::{
    classify_sensor_read, Coordinator, CoordinatorPhase, SensorFault, SensorOutcome,
    SharedShutdownState, Teardown, TeardownEvent, TeardownPhase, WakeAction,
};

#[test]
fn wait_loop_ticks_until_signal_then_exits_with_payload() {
    let mut state = SharedShutdownState::new();
    let mut coord = Coordinator::new();
    // three timeout-driven wakes with the signal absent: one sensor poll each
    for _ in 0..3 {
        let action = coord.on_wake(state.signalled());
        assert_eq!(action, WakeAction::PollSensor);
        assert_eq!(coord.phase, CoordinatorPhase::Running);
    }
    assert_eq!(coord.ticks, 3);
    // the signal arrives with a payload; the next wake ends the loop with it
    state.request_shutdown(42);
    let action = coord.on_wake(state.signalled());
    assert_eq!(action, WakeAction::BeginTeardown(42));
    assert_eq!(coord.phase, CoordinatorPhase::ShuttingDown(42));
    assert_eq!(coord.ticks, 3);
}

#[test]
fn request_shutdown_is_monotonic() {
    let mut state = SharedShutdownState::new();
    assert_eq!(state.signalled(), None);
    state.request_shutdown(7);
    assert_eq!(state.signalled(), Some(7));
    // a second writer transition never happens: the first payload stays
    state.request_shutdown(9);
    assert_eq!(state.signalled(), Some(7));
}

#[test]
fn sensor_read_failure_is_degraded_not_fatal() {
    assert_eq!(classify_sensor_read(Ok(1234)), SensorOutcome::Reading(1234));
    assert_eq!(
        classify_sensor_read(Err(SensorFault { code: -1 })),
        SensorOutcome::Degraded
    );
}

#[test]
fn teardown_stops_service_before_interface() {
    let mut t = Teardown::new();
    assert_eq!(t.phase, TeardownPhase::Pending);
    t.stop_service();
    assert_eq!(t.phase, TeardownPhase::ServiceDown);
    t.stop_interface();
    assert_eq!(t.phase, TeardownPhase::Complete);
    assert_eq!(t.log, vec![
        TeardownEvent::ServiceStopped,
        TeardownEvent::InterfaceStopped,
    ]);
}
