use sumrzr::inference::{
    health_url, launch_args, server_url_for, socket_address, InferenceEngine, StartAction,
    StartEvent,
};

fn expect_probe(a: StartAction) -> String {
    match a {
        StartAction::ProbeAlive { address } => address,
        other => panic!("expected a probe, got {:?}", other),
    }
}

/// Runs a start to its end, answering each piece of work from `answer`.
fn run_start(
    e: &mut InferenceEngine,
    path: &str,
    mut answer: impl FnMut(&StartAction) -> StartEvent,
) -> (Result<u16, String>, Vec<String>) {
    let mut log = Vec::new();
    let mut action = e.start(path);
    loop {
        log.push(format!("{:?}", action));
        if let StartAction::Finished(r) = action {
            return (r, log);
        }
        let event = answer(&action);
        assert!(e.accepts(&event));
        action = e.advance(event);
    }
}

fn happy(port: u16) -> impl FnMut(&StartAction) -> StartEvent {
    move |a| match a {
        StartAction::ProbeAlive { .. } => StartEvent::AliveChecked(false),
        StartAction::KillServer => StartEvent::ServerKilled,
        StartAction::CheckBinary { .. } => StartEvent::BinaryChecked(true),
        StartAction::AllocatePort => StartEvent::PortAllocated(Ok(port)),
        StartAction::Spawn { .. } => StartEvent::Spawned(Ok(())),
        StartAction::AwaitReady { .. } => StartEvent::ServerReady(Ok(())),
        StartAction::Finished(_) => unreachable!(),
    }
}

#[test]
fn urls_and_addresses() {
    assert_eq!(server_url_for(8080), "http://127.0.0.1:8080");
    assert_eq!(server_url_for(0), "http://127.0.0.1:0");
    assert_eq!(health_url(41234), "http://127.0.0.1:41234/health");
    assert_eq!(socket_address(65535), "127.0.0.1:65535");
}

#[test]
fn launch_arguments_are_exact() {
    assert_eq!(
        launch_args("/m/x.gguf", 5000),
        vec!["--model", "/m/x.gguf", "--port", "5000", "--host", "127.0.0.1", "--ctx-size", "8192", "--jinja"]
    );
}

#[test]
fn new_engine_has_no_server() {
    let e = InferenceEngine::new();
    assert_eq!(e.port, None);
    assert_eq!(e.server_url(), None);
    assert_eq!(e.running_server_url(true), None);
    assert_eq!(e.port(), None);
    assert_eq!(e.alive_probe_address(), None);
    assert!(!e.is_running(true));
}

#[test]
fn start_without_binary_fails_after_killing() {
    let mut e = InferenceEngine::new();
    let (r, log) = run_start(&mut e, "/m/a.gguf", happy(1));
    assert_eq!(r, Err("llama-server binary saknas".to_string()));
    assert_eq!(log[0], "KillServer");
    assert_eq!(e.port, None);
}

#[test]
fn start_with_missing_binary_file_fails() {
    let mut e = InferenceEngine::new();
    e.set_server_binary("/bin/llama-server".to_string());
    let (r, _) = run_start(&mut e, "/m/a.gguf", |a| match a {
        StartAction::CheckBinary { binary } => {
            assert_eq!(binary, "/bin/llama-server");
            StartEvent::BinaryChecked(false)
        }
        other => happy(1)(other),
    });
    assert_eq!(r, Err("llama-server binary hittades inte: /bin/llama-server".to_string()));
}

#[test]
fn start_reports_port_and_spawn_errors() {
    let mut e = InferenceEngine::new();
    e.set_server_binary("/bin/ls".to_string());
    let (r, _) = run_start(&mut e, "/m/a.gguf", |a| match a {
        StartAction::AllocatePort => StartEvent::PortAllocated(Err("denied".to_string())),
        other => happy(1)(other),
    });
    assert_eq!(r, Err("Kunde inte hitta ledig port: denied".to_string()));
    let (r, _) = run_start(&mut e, "/m/a.gguf", |a| match a {
        StartAction::Spawn { .. } => StartEvent::Spawned(Err("no exec".to_string())),
        other => happy(1)(other),
    });
    assert_eq!(r, Err("Kunde inte starta llama-server: no exec".to_string()));
    assert_eq!(e.port, None);
}

#[test]
fn successful_start_serves_the_model() {
    let mut e = InferenceEngine::new();
    e.set_server_binary("/bin/llama-server".to_string());
    let (r, log) = run_start(&mut e, "/m/a.gguf", |a| {
        if let StartAction::Spawn { program, args } = a {
            assert_eq!(program, "/bin/llama-server");
            assert_eq!(args[1], "/m/a.gguf");
            assert_eq!(args[3], "4321");
        }
        if let StartAction::AwaitReady { port, timeout_secs } = a {
            assert_eq!((*port, *timeout_secs), (4321, 120));
        }
        happy(4321)(a)
    });
    assert_eq!(r, Ok(4321));
    assert_eq!(log.len(), 6);
    assert_eq!(log[0], "KillServer");
    assert_eq!(log.iter().filter(|a| a.starts_with("Spawn")).count(), 1);
    assert!(log[3].starts_with("Spawn"));
    assert_eq!(e.port, Some(4321));
    assert_eq!(e.server_url(), Some("http://127.0.0.1:4321".to_string()));
    assert_eq!(e.alive_probe_address(), Some("127.0.0.1:4321".to_string()));
    assert!(e.is_running(true));
    assert!(!e.is_running(false));
    assert_eq!(e.port(), Some(4321));
    assert_eq!(e.running_server_url(true), Some("http://127.0.0.1:4321".to_string()));
    assert_eq!(e.running_server_url(false), None);
}

#[test]
fn no_running_url_after_a_start_that_never_answered() {
    let mut e = InferenceEngine::new();
    e.set_server_binary("/bin/llama-server".to_string());
    let (r, _) = run_start(&mut e, "/m/a.gguf", |a| match a {
        StartAction::AwaitReady { .. } => StartEvent::ServerReady(Err("timeout".to_string())),
        other => happy(7001)(other),
    });
    assert!(r.is_err());
    assert_eq!(e.port(), Some(7001));
    assert_eq!(e.running_server_url(false), None);
    assert!(!e.is_running(false));
}

#[test]
fn same_model_with_live_server_is_reused() {
    let mut e = InferenceEngine::new();
    e.set_server_binary("/bin/llama-server".to_string());
    run_start(&mut e, "/m/a.gguf", happy(4321)).0.unwrap();
    let mut action = e.start("/m/a.gguf");
    assert_eq!(expect_probe(action), "127.0.0.1:4321");
    action = e.advance(StartEvent::AliveChecked(true));
    assert!(matches!(action, StartAction::Finished(Ok(4321))));
    assert_eq!(e.port, Some(4321));
}

#[test]
fn same_model_with_dead_server_is_restarted() {
    let mut e = InferenceEngine::new();
    e.set_server_binary("/bin/llama-server".to_string());
    run_start(&mut e, "/m/a.gguf", happy(4321)).0.unwrap();
    let (r, log) = run_start(&mut e, "/m/a.gguf", happy(5555));
    assert_eq!(r, Ok(5555));
    assert!(log[0].starts_with("ProbeAlive"));
    assert_eq!(log[1], "KillServer");
    assert_eq!(e.port, Some(5555));
}

#[test]
fn other_model_kills_the_running_server() {
    let mut e = InferenceEngine::new();
    e.set_server_binary("/bin/llama-server".to_string());
    run_start(&mut e, "/m/a.gguf", happy(4321)).0.unwrap();
    let a = e.start("/m/b.gguf");
    assert!(matches!(a, StartAction::KillServer));
    assert_eq!(e.port, None);
    assert!(!e.accepts(&StartEvent::AliveChecked(true)));
}

#[test]
fn failed_wait_keeps_the_spawned_server() {
    let mut e = InferenceEngine::new();
    e.set_server_binary("/bin/llama-server".to_string());
    let (r, _) = run_start(&mut e, "/m/a.gguf", |a| match a {
        StartAction::AwaitReady { .. } => {
            StartEvent::ServerReady(Err("llama-server /health svarade inte i tid".to_string()))
        }
        other => happy(7000)(other),
    });
    assert_eq!(r, Err("llama-server /health svarade inte i tid".to_string()));
    assert_eq!(e.port, Some(7000));
}

#[test]
fn stop_forgets_server_and_model() {
    let mut e = InferenceEngine::new();
    e.set_server_binary("/bin/llama-server".to_string());
    run_start(&mut e, "/m/a.gguf", happy(4321)).0.unwrap();
    e.stop();
    assert_eq!(e.port, None);
    assert_eq!(e.server_url(), None);
    assert!(!e.is_running(true));
    // the model is forgotten: starting it again does not probe the old server
    assert!(matches!(e.start("/m/a.gguf"), StartAction::KillServer));
}
