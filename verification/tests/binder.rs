use client_auth::errors::AuthError;
use client_auth::ports::{
    valid_ports, BindDecision, BindOutcome, PortBinder, ProbeDecision, ProbeOutcome,
};

#[test]
fn whitelist_ports() {
    assert_eq!(valid_ports(), vec![12731, 32492, 56909]);
}

#[test]
fn occupied_port_is_skipped() {
    let mut binder = PortBinder::new(valid_ports());
    assert_eq!(binder.current_port(), Some(12731));
    let d = binder.record_probe(&ProbeOutcome::Accepted);
    assert!(matches!(d, ProbeDecision::SkipOccupied));
    assert_eq!(binder.current_port(), Some(32492));
}

#[test]
fn free_port_is_bound() {
    let mut binder = PortBinder::new(valid_ports());
    let d = binder.record_probe(&ProbeOutcome::Refused);
    assert!(matches!(d, ProbeDecision::AttemptBind));
    let d = binder.record_bind(&BindOutcome::Bound);
    assert!(matches!(d, BindDecision::Selected(12731)));
}

#[test]
fn port_taken_between_probe_and_bind_is_skipped() {
    let mut binder = PortBinder::new(valid_ports());
    let d = binder.record_probe(&ProbeOutcome::Refused);
    assert!(matches!(d, ProbeDecision::AttemptBind));
    let d = binder.record_bind(&BindOutcome::AddrInUse);
    assert!(matches!(d, BindDecision::SkipTaken));
    assert_eq!(binder.current_port(), Some(32492));
}

#[test]
fn probe_failure_aborts() {
    let mut binder = PortBinder::new(valid_ports());
    let d = binder.record_probe(&ProbeOutcome::Failed);
    match d {
        ProbeDecision::Abort(e) => {
            assert_eq!(e, AuthError::ProbeFailed(12731));
            assert_eq!(e.message(), "Failed to check port 12731 is available for binding");
        }
        _ => panic!("expected an abort"),
    }
}

#[test]
fn bind_failure_aborts() {
    let mut binder = PortBinder::new(valid_ports());
    let d = binder.record_probe(&ProbeOutcome::Refused);
    assert!(matches!(d, ProbeDecision::AttemptBind));
    let d = binder.record_bind(&BindOutcome::Failed);
    match d {
        BindDecision::Abort(e) => {
            assert_eq!(e, AuthError::BindFailed(12731));
            assert_eq!(e.message(), "Failed to bind to port 12731");
        }
        _ => panic!("expected an abort"),
    }
}

#[test]
fn all_ports_occupied_names_every_port() {
    let mut binder = PortBinder::new(valid_ports());
    let mut skipped = 0;
    while let Some(_p) = binder.current_port() {
        let d = binder.record_probe(&ProbeOutcome::Accepted);
        assert!(matches!(d, ProbeDecision::SkipOccupied));
        skipped += 1;
    }
    assert_eq!(skipped, 3);
    let e = binder.no_port_error();
    assert_eq!(e, AuthError::NoAvailablePort(vec![12731, 32492, 56909]));
    assert_eq!(e.message(), "Could not bind to any valid port: ([12731, 32492, 56909])");
}
