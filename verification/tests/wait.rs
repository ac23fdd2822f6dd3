use sumrzr::server_wait::{is_success, ServerWait, WaitAction, WaitEvent, WaitPhase};

#[test]
fn success_statuses() {
    assert!(is_success(200));
    assert!(is_success(204));
    assert!(is_success(299));
    assert!(!is_success(199));
    assert!(!is_success(300));
    assert!(!is_success(503));
}

#[test]
fn wait_connects_then_polls_health() {
    let mut w = ServerWait::new(8080, 120);
    let a = w.advance(WaitEvent::Clock { deadline_passed: false });
    match a {
        WaitAction::Connect { address, timeout_millis } => {
            assert_eq!(address, "127.0.0.1:8080");
            assert_eq!(timeout_millis, 200);
        }
        other => panic!("{:?}", other),
    }
    assert!(matches!(w.advance(WaitEvent::Connected(false)), WaitAction::Sleep { millis: 300 }));
    assert!(matches!(w.advance(WaitEvent::Clock { deadline_passed: false }), WaitAction::Connect { .. }));
    assert!(matches!(w.advance(WaitEvent::Connected(true)), WaitAction::BuildClient { timeout_secs: 2 }));
    assert!(matches!(w.advance(WaitEvent::ClientBuilt(Ok(()))), WaitAction::CheckClock));
    match w.advance(WaitEvent::Clock { deadline_passed: false }) {
        WaitAction::RequestHealth { url } => assert_eq!(url, "http://127.0.0.1:8080/health"),
        other => panic!("{:?}", other),
    }
    assert!(matches!(w.advance(WaitEvent::HealthStatus(Some(503))), WaitAction::Sleep { millis: 500 }));
    assert!(matches!(w.advance(WaitEvent::Clock { deadline_passed: false }), WaitAction::RequestHealth { .. }));
    assert!(matches!(w.advance(WaitEvent::HealthStatus(None)), WaitAction::Sleep { millis: 500 }));
    w.advance(WaitEvent::Clock { deadline_passed: false });
    assert!(matches!(w.advance(WaitEvent::HealthStatus(Some(200))), WaitAction::Finish(Ok(()))));
    assert_eq!(w.phase, WaitPhase::Done);
    assert!(!w.accepts(&WaitEvent::Clock { deadline_passed: false }));
}

#[test]
fn wait_times_out_before_connecting() {
    let mut w = ServerWait::new(1, 120);
    match w.advance(WaitEvent::Clock { deadline_passed: true }) {
        WaitAction::Finish(Err(m)) => assert_eq!(m, "llama-server startade inte inom 120s"),
        other => panic!("{:?}", other),
    }
    let mut w = ServerWait::new(1, 7);
    w.advance(WaitEvent::Clock { deadline_passed: false });
    w.advance(WaitEvent::Connected(false));
    match w.advance(WaitEvent::Clock { deadline_passed: true }) {
        WaitAction::Finish(Err(m)) => assert_eq!(m, "llama-server startade inte inom 7s"),
        other => panic!("{:?}", other),
    }
}

#[test]
fn wait_times_out_while_polling() {
    let mut w = ServerWait::new(1, 120);
    w.advance(WaitEvent::Clock { deadline_passed: false });
    w.advance(WaitEvent::Connected(true));
    w.advance(WaitEvent::ClientBuilt(Ok(())));
    match w.advance(WaitEvent::Clock { deadline_passed: true }) {
        WaitAction::Finish(Err(m)) => assert_eq!(m, "llama-server /health svarade inte i tid"),
        other => panic!("{:?}", other),
    }
}

#[test]
fn wait_fails_when_the_client_cannot_be_built() {
    let mut w = ServerWait::new(1, 120);
    w.advance(WaitEvent::Clock { deadline_passed: false });
    w.advance(WaitEvent::Connected(true));
    assert!(!w.accepts(&WaitEvent::Clock { deadline_passed: false }));
    match w.advance(WaitEvent::ClientBuilt(Err("tls".to_string()))) {
        WaitAction::Finish(Err(m)) => assert_eq!(m, "HTTP client fel: tls"),
        other => panic!("{:?}", other),
    }
}
