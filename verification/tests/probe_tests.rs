use device_orchestrator::fault::BringUpError;
use device_orchestrator::probe::ProbeResult;

#[test]
fn probe_all_received_is_healthy() {
    let p = ProbeResult::new(4, 4);
    assert!(p.is_healthy());
    assert_eq!(p.check(), Ok(()));
}

#[test]
fn probe_single_loss_is_unreachable() {
    let p = ProbeResult::new(4, 3);
    assert!(!p.is_healthy());
    assert_eq!(p.check(), Err(BringUpError::UnreachableGateway));
}

#[test]
fn probe_zero_of_zero_is_healthy() {
    let p = ProbeResult::new(0, 0);
    assert!(p.is_healthy());
    assert_eq!(p.check(), Ok(()));
}

#[test]
fn error_descriptions() {
    assert_eq!(
        BringUpError::UnreachableGateway.description(),
        "gateway did not answer every probe"
    );
    assert_eq!(
        BringUpError::HardwareFault.description(),
        "peripheral unavailable or misconfigured"
    );
    assert_eq!(
        BringUpError::LinkFault.description(),
        "network interface failed to come up"
    );
}
