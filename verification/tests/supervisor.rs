use service_supervisor::error::{StartError, StopError};
use service_supervisor::launch::{LaunchKind, LaunchTarget};
use service_supervisor::port::BindOutcome;
use service_supervisor::probe::ProbeOutcome;
use service_supervisor::process::{KillOutcome, Platform, ProcessHandle};
use service_supervisor::registry::{ServerInfo, ServiceStatus};
use service_supervisor::session::{
    Reaction, SpawnOutcome, StartAction, StartConfig, StartEvent, StartSession,
};
use service_supervisor::supervisor::Supervisor;

fn sidecar() -> LaunchTarget {
    LaunchTarget::Sidecar {
        program: "/app/whisper-gui-core".to_string(),
        workdir: "/app/backend".to_string(),
    }
}

fn script() -> LaunchTarget {
    LaunchTarget::Script {
        interpreter: "python3".to_string(),
        script: "/app/backend/main.py".to_string(),
        workdir: "/app/backend".to_string(),
        search_path: "/bin".to_string(),
    }
}

fn running(port: u16) -> ServerInfo {
    ServerInfo { url: format!("http://127.0.0.1:{}", port), port, status: ServiceStatus::Running }
}

fn quiet(reaction: &Reaction) {
    assert!(reaction.publish.is_none());
    assert_eq!(reaction.pause_ms, None);
    assert_eq!(reaction.orphaned, None);
}

fn probe_url(action: &StartAction) -> &str {
    match action {
        StartAction::Probe { url } => url,
        other => panic!("expected a probe, got {:?}", other),
    }
}

/// Drives a session up to the first readiness probe on `port`.
fn spawned_on(supervisor: &mut Supervisor, port: u16, pid: u32) -> StartSession {
    let session = StartSession::new(StartConfig::default());
    let (session, _) = session.handle(supervisor, StartEvent::Probed(ProbeOutcome::Unreachable));
    let (session, _) = session.handle(supervisor, StartEvent::Bound(BindOutcome::Bound(port)));
    let (session, _) = session.handle(supervisor, StartEvent::Resolved(Some(sidecar())));
    let (session, reaction) = session.handle(
        supervisor,
        StartEvent::Spawned(SpawnOutcome::Started(ProcessHandle { pid })),
    );
    assert_eq!(probe_url(&reaction.next), format!("http://127.0.0.1:{}", port));
    session
}

#[test]
fn default_configuration() {
    let config = StartConfig::default();
    assert_eq!(config.preferred_port, 7860);
    assert_eq!(config.max_attempts, 30);
    assert_eq!(config.interval_ms, 300);
}

#[test]
fn a_new_supervisor_holds_nothing() {
    let mut supervisor = Supervisor::new();
    assert_eq!(supervisor.query(), None);
    assert_eq!(supervisor.supervised(), None);
    assert!(matches!(supervisor.begin_stop(Platform::Linux), Err(StopError::NotFound)));
}

#[test]
fn a_session_begins_by_looking_for_a_running_service() {
    let session = StartSession::new(StartConfig::default());
    assert!(!session.finished());
    assert_eq!(probe_url(&session.pending()), "http://127.0.0.1:7860");
    let session = StartSession::new(StartConfig {
        preferred_port: 9000,
        max_attempts: 3,
        interval_ms: 10,
    });
    assert_eq!(probe_url(&session.pending()), "http://127.0.0.1:9000");
}

#[test]
fn free_default_port_starts_on_it() {
    let mut supervisor = Supervisor::new();
    let session = StartSession::new(StartConfig::default());

    let (session, reaction) =
        session.handle(&mut supervisor, StartEvent::Probed(ProbeOutcome::Unreachable));
    quiet(&reaction);
    assert!(matches!(reaction.next, StartAction::Bind { port: 7860 }));

    let (session, reaction) =
        session.handle(&mut supervisor, StartEvent::Bound(BindOutcome::Bound(7860)));
    quiet(&reaction);
    assert!(matches!(reaction.next, StartAction::Resolve));

    let (session, reaction) =
        session.handle(&mut supervisor, StartEvent::Resolved(Some(sidecar())));
    let launch = reaction.publish.unwrap();
    assert_eq!(launch.percent, 5);
    assert_eq!(launch.message, "Launching sidecar");
    assert_eq!(reaction.pause_ms, None);
    match &reaction.next {
        StartAction::Spawn { plan } => {
            assert_eq!(plan.program, "/app/whisper-gui-core");
            assert_eq!(plan.args, vec!["--server.name", "127.0.0.1", "--server.port", "7860"]);
            assert_eq!(plan.workdir, "/app/backend");
            assert_eq!(plan.search_path, None);
        }
        other => panic!("expected a spawn, got {:?}", other),
    }
    assert_eq!(supervisor.supervised(), None);

    let (session, reaction) = session.handle(
        &mut supervisor,
        StartEvent::Spawned(SpawnOutcome::Started(ProcessHandle { pid: 4242 })),
    );
    quiet(&reaction);
    assert_eq!(probe_url(&reaction.next), "http://127.0.0.1:7860");
    assert_eq!(supervisor.supervised(), Some(ProcessHandle { pid: 4242 }));
    assert_eq!(supervisor.query(), None);

    let (session, reaction) =
        session.handle(&mut supervisor, StartEvent::Probed(ProbeOutcome::Unreachable));
    let waiting = reaction.publish.unwrap();
    assert_eq!(waiting.percent, 13);
    assert_eq!(waiting.message, "Starting engine...");
    assert_eq!(reaction.pause_ms, Some(300));
    assert_eq!(probe_url(&reaction.next), "http://127.0.0.1:7860");
    assert_eq!(supervisor.query(), None);

    let (session, reaction) =
        session.handle(&mut supervisor, StartEvent::Probed(ProbeOutcome::Status(200)));
    let ready = reaction.publish.unwrap();
    assert_eq!(ready.percent, 100);
    assert_eq!(ready.message, "Engine ready");
    assert_eq!(reaction.pause_ms, None);
    match reaction.next {
        StartAction::Finish(Ok(info)) => {
            assert_eq!(info, running(7860));
            assert_eq!(info.status.as_str(), "running");
        }
        other => panic!("expected success, got {:?}", other),
    }
    assert!(session.finished());
    assert_eq!(supervisor.query(), Some(running(7860)));
    assert_eq!(supervisor.supervised(), Some(ProcessHandle { pid: 4242 }));
}

#[test]
fn a_second_start_adopts_the_running_service() {
    let mut supervisor = Supervisor::new();
    let session = spawned_on(&mut supervisor, 7860, 4242);
    let (_, reaction) =
        session.handle(&mut supervisor, StartEvent::Probed(ProbeOutcome::Status(200)));
    assert!(matches!(reaction.next, StartAction::Finish(Ok(_))));

    let again = StartSession::new(StartConfig::default());
    assert_eq!(probe_url(&again.pending()), "http://127.0.0.1:7860");
    let (again, reaction) =
        again.handle(&mut supervisor, StartEvent::Probed(ProbeOutcome::Status(200)));
    quiet(&reaction);
    match reaction.next {
        StartAction::Finish(Ok(info)) => assert_eq!(info, running(7860)),
        other => panic!("expected success, got {:?}", other),
    }
    assert!(again.finished());
    assert_eq!(supervisor.query(), Some(running(7860)));
    // No second process: the first child is still the supervised one.
    assert_eq!(supervisor.supervised(), Some(ProcessHandle { pid: 4242 }));
}

#[test]
fn occupied_default_port_moves_to_an_ephemeral_one() {
    let mut supervisor = Supervisor::new();
    let session = StartSession::new(StartConfig::default());
    // Whoever holds the port is not the service: it answers, but not with success.
    let (session, reaction) =
        session.handle(&mut supervisor, StartEvent::Probed(ProbeOutcome::Status(404)));
    assert!(matches!(reaction.next, StartAction::Bind { port: 7860 }));
    let (session, reaction) = session.handle(
        &mut supervisor,
        StartEvent::Bound(BindOutcome::Refused("Address already in use".to_string())),
    );
    quiet(&reaction);
    assert!(matches!(reaction.next, StartAction::Bind { port: 0 }));
    let (session, reaction) =
        session.handle(&mut supervisor, StartEvent::Bound(BindOutcome::Bound(49321)));
    assert!(matches!(reaction.next, StartAction::Resolve));
    let (session, reaction) = session.handle(&mut supervisor, StartEvent::Resolved(Some(script())));
    let launch = reaction.publish.unwrap();
    assert_eq!(launch.percent, 5);
    assert_eq!(launch.message, "Launching Python backend");
    match &reaction.next {
        StartAction::Spawn { plan } => {
            assert_eq!(plan.program, "python3");
            assert_eq!(
                plan.args,
                vec![
                    "/app/backend/main.py",
                    "--server.name",
                    "127.0.0.1",
                    "--server.port",
                    "49321"
                ]
            );
            assert_eq!(
                plan.search_path,
                Some("/usr/bin:/usr/local/bin:/opt/homebrew/bin:/bin".to_string())
            );
        }
        other => panic!("expected a spawn, got {:?}", other),
    }
    let (session, reaction) = session.handle(
        &mut supervisor,
        StartEvent::Spawned(SpawnOutcome::Started(ProcessHandle { pid: 77 })),
    );
    assert_eq!(probe_url(&reaction.next), "http://127.0.0.1:49321");
    let (_, reaction) =
        session.handle(&mut supervisor, StartEvent::Probed(ProbeOutcome::Status(200)));
    match reaction.next {
        StartAction::Finish(Ok(info)) => {
            assert_eq!(info.port, 49321);
            assert_ne!(info.port, 7860);
            assert_eq!(info.url, "http://127.0.0.1:49321");
        }
        other => panic!("expected success, got {:?}", other),
    }
    assert_eq!(supervisor.query(), Some(running(49321)));
}

#[test]
fn missing_launch_target_fails_before_any_polling() {
    let mut supervisor = Supervisor::new();
    let session = StartSession::new(StartConfig::default());
    let (session, _) =
        session.handle(&mut supervisor, StartEvent::Probed(ProbeOutcome::Unreachable));
    let (session, _) = session.handle(&mut supervisor, StartEvent::Bound(BindOutcome::Bound(7860)));
    let (session, reaction) = session.handle(&mut supervisor, StartEvent::Resolved(None));
    quiet(&reaction);
    match &reaction.next {
        StartAction::Finish(Err(e)) => {
            assert!(matches!(e, StartError::ResolutionFailure));
            assert_eq!(e.message(), "No launch target found");
        }
        other => panic!("expected a failure, got {:?}", other),
    }
    assert!(session.finished());
    assert_eq!(supervisor.query(), None);
    assert_eq!(supervisor.supervised(), None);
    // A probe that comes in afterwards is not taken for a readiness probe.
    let (session, reaction) =
        session.handle(&mut supervisor, StartEvent::Probed(ProbeOutcome::Status(200)));
    quiet(&reaction);
    assert!(matches!(reaction.next, StartAction::Finish(Err(StartError::ResolutionFailure))));
    assert!(session.finished());
    assert_eq!(supervisor.query(), None);
}

#[test]
fn refused_spawn_fails_before_any_polling() {
    let mut supervisor = Supervisor::new();
    let session = StartSession::new(StartConfig::default());
    let (session, _) =
        session.handle(&mut supervisor, StartEvent::Probed(ProbeOutcome::Unreachable));
    let (session, _) = session.handle(&mut supervisor, StartEvent::Bound(BindOutcome::Bound(7860)));
    let (session, _) = session.handle(&mut supervisor, StartEvent::Resolved(Some(script())));
    let (session, reaction) = session.handle(
        &mut supervisor,
        StartEvent::Spawned(SpawnOutcome::Refused(
            "No such file or directory (os error 2)".to_string(),
        )),
    );
    quiet(&reaction);
    match &reaction.next {
        StartAction::Finish(Err(e)) => {
            assert!(matches!(e, StartError::SpawnFailure { kind: LaunchKind::Script, .. }));
            assert_eq!(
                e.message(),
                "Failed to spawn Python process: No such file or directory (os error 2)"
            );
        }
        other => panic!("expected a failure, got {:?}", other),
    }
    assert!(session.finished());
    assert_eq!(supervisor.query(), None);
    assert_eq!(supervisor.supervised(), None);
}

#[test]
fn no_port_at_all_fails_the_start() {
    let mut supervisor = Supervisor::new();
    let session = StartSession::new(StartConfig::default());
    let (session, _) =
        session.handle(&mut supervisor, StartEvent::Probed(ProbeOutcome::Unreachable));
    let (session, _) = session
        .handle(&mut supervisor, StartEvent::Bound(BindOutcome::Refused("in use".to_string())));
    let (session, reaction) = session.handle(
        &mut supervisor,
        StartEvent::Bound(BindOutcome::Refused("Too many open files".to_string())),
    );
    match &reaction.next {
        StartAction::Finish(Err(e)) => {
            assert!(matches!(e, StartError::PortUnavailable(_)));
            assert_eq!(e.message(), "Failed to acquire a free port: Too many open files");
        }
        other => panic!("expected a failure, got {:?}", other),
    }
    assert!(session.finished());
}

#[test]
fn readiness_timeout_leaves_the_child_running() {
    let mut supervisor = Supervisor::new();
    let mut session = spawned_on(&mut supervisor, 7860, 4242);
    let mut percents = Vec::new();
    let mut probes = 0;
    let error = loop {
        match session.pending() {
            StartAction::Probe { url } => {
                assert_eq!(url, "http://127.0.0.1:7860");
                probes += 1;
                let (next, reaction) =
                    session.handle(&mut supervisor, StartEvent::Probed(ProbeOutcome::Unreachable));
                session = next;
                percents.push(reaction.publish.unwrap().percent);
                assert_eq!(reaction.pause_ms, Some(300));
            }
            StartAction::Finish(Err(e)) => break e,
            other => panic!("unexpected {:?}", other),
        }
    };
    assert_eq!(probes, 30);
    assert_eq!(percents.len(), 30);
    assert_eq!(percents[0], 13);
    assert_eq!(percents[29], 95);
    assert!(percents.iter().all(|p| *p < 100));
    assert!(matches!(error, StartError::ReadinessTimeout { .. }));
    assert_eq!(
        error.message(),
        "Server failed to start or is not responding at http://127.0.0.1:7860"
    );
    assert_eq!(supervisor.query(), None);
    assert_eq!(supervisor.supervised(), Some(ProcessHandle { pid: 4242 }));
}

#[test]
fn a_start_without_attempts_times_out_after_the_spawn() {
    let mut supervisor = Supervisor::new();
    let session = StartSession::new(StartConfig {
        preferred_port: 7860,
        max_attempts: 0,
        interval_ms: 300,
    });
    let (session, _) =
        session.handle(&mut supervisor, StartEvent::Probed(ProbeOutcome::Unreachable));
    let (session, _) = session.handle(&mut supervisor, StartEvent::Bound(BindOutcome::Bound(7860)));
    let (session, _) = session.handle(&mut supervisor, StartEvent::Resolved(Some(sidecar())));
    let (session, reaction) = session.handle(
        &mut supervisor,
        StartEvent::Spawned(SpawnOutcome::Started(ProcessHandle { pid: 5 })),
    );
    assert!(matches!(
        reaction.next,
        StartAction::Finish(Err(StartError::ReadinessTimeout { .. }))
    ));
    assert!(session.finished());
    assert_eq!(supervisor.supervised(), Some(ProcessHandle { pid: 5 }));
}

#[test]
fn events_that_answer_nothing_are_ignored() {
    let mut supervisor = Supervisor::new();
    let session = StartSession::new(StartConfig::default());
    let (session, reaction) =
        session.handle(&mut supervisor, StartEvent::Bound(BindOutcome::Bound(1234)));
    quiet(&reaction);
    assert_eq!(probe_url(&reaction.next), "http://127.0.0.1:7860");
    let (session, reaction) = session.handle(
        &mut supervisor,
        StartEvent::Spawned(SpawnOutcome::Started(ProcessHandle { pid: 1 })),
    );
    quiet(&reaction);
    assert_eq!(probe_url(&reaction.next), "http://127.0.0.1:7860");
    assert_eq!(supervisor.supervised(), None);
    let (session, _) =
        session.handle(&mut supervisor, StartEvent::Probed(ProbeOutcome::Unreachable));
    let (session, reaction) = session.handle(&mut supervisor, StartEvent::Resolved(Some(sidecar())));
    quiet(&reaction);
    assert!(matches!(reaction.next, StartAction::Bind { port: 7860 }));
    let (session, _) = session.handle(&mut supervisor, StartEvent::Bound(BindOutcome::Bound(7860)));
    let (session, reaction) =
        session.handle(&mut supervisor, StartEvent::Probed(ProbeOutcome::Status(200)));
    quiet(&reaction);
    assert!(matches!(reaction.next, StartAction::Resolve));
    assert!(!session.finished());
    assert_eq!(supervisor.query(), None);
}

#[test]
fn a_new_child_displaces_the_old_one_in_sight() {
    let mut supervisor = Supervisor::new();
    let _first = spawned_on(&mut supervisor, 7860, 10);
    let session = StartSession::new(StartConfig::default());
    let (session, _) =
        session.handle(&mut supervisor, StartEvent::Probed(ProbeOutcome::Unreachable));
    let (session, _) = session.handle(&mut supervisor, StartEvent::Bound(BindOutcome::Bound(7861)));
    let (session, _) = session.handle(&mut supervisor, StartEvent::Resolved(Some(sidecar())));
    let (_, reaction) = session.handle(
        &mut supervisor,
        StartEvent::Spawned(SpawnOutcome::Started(ProcessHandle { pid: 11 })),
    );
    assert_eq!(reaction.orphaned, Some(ProcessHandle { pid: 10 }));
    assert_eq!(supervisor.supervised(), Some(ProcessHandle { pid: 11 }));
}

#[test]
fn stop_clears_and_a_fresh_start_succeeds() {
    let mut supervisor = Supervisor::new();
    let session = spawned_on(&mut supervisor, 7860, 4242);
    session.handle(&mut supervisor, StartEvent::Probed(ProbeOutcome::Status(200)));
    assert_eq!(supervisor.query(), Some(running(7860)));

    let order = supervisor.begin_stop(Platform::Linux).unwrap();
    assert_eq!(order.ticket.handle(), ProcessHandle { pid: 4242 });
    assert_eq!(order.command.program, "kill");
    assert_eq!(order.command.args, vec!["-9", "4242"]);
    assert!(supervisor.finish_stop(order.ticket, KillOutcome::Killed).is_ok());
    assert_eq!(supervisor.query(), None);
    assert_eq!(supervisor.supervised(), None);
    assert!(matches!(supervisor.begin_stop(Platform::Linux), Err(StopError::NotFound)));

    let session = spawned_on(&mut supervisor, 7860, 5000);
    let (_, reaction) =
        session.handle(&mut supervisor, StartEvent::Probed(ProbeOutcome::Status(200)));
    assert!(matches!(reaction.next, StartAction::Finish(Ok(_))));
    assert_eq!(supervisor.query(), Some(running(7860)));
    assert_eq!(supervisor.supervised(), Some(ProcessHandle { pid: 5000 }));
}

#[test]
fn stopping_a_process_that_had_exited_succeeds() {
    let mut supervisor = Supervisor::new();
    let session = spawned_on(&mut supervisor, 7860, 4242);
    session.handle(&mut supervisor, StartEvent::Probed(ProbeOutcome::Status(200)));
    let order = supervisor.begin_stop(Platform::Windows).unwrap();
    assert_eq!(order.command.program, "taskkill");
    assert_eq!(order.command.args, vec!["/F", "/PID", "4242"]);
    assert!(supervisor.finish_stop(order.ticket, KillOutcome::AlreadyExited).is_ok());
    assert_eq!(supervisor.query(), None);
    assert_eq!(supervisor.supervised(), None);
}

#[test]
fn a_failed_stop_changes_nothing() {
    let mut supervisor = Supervisor::new();
    let session = spawned_on(&mut supervisor, 7860, 4242);
    session.handle(&mut supervisor, StartEvent::Probed(ProbeOutcome::Status(200)));
    let order = supervisor.begin_stop(Platform::MacOs).unwrap();
    match supervisor.finish_stop(order.ticket, KillOutcome::Failed("not permitted".to_string())) {
        Err(e) => {
            assert!(matches!(e, StopError::KillFailed(_)));
            assert_eq!(e.message(), "Failed to kill process: not permitted");
        }
        Ok(()) => panic!("expected a failure"),
    }
    assert_eq!(supervisor.query(), Some(running(7860)));
    assert_eq!(supervisor.supervised(), Some(ProcessHandle { pid: 4242 }));
}

#[test]
fn a_stop_that_was_overtaken_keeps_the_new_service() {
    let mut supervisor = Supervisor::new();
    let session = spawned_on(&mut supervisor, 7860, 10);
    session.handle(&mut supervisor, StartEvent::Probed(ProbeOutcome::Status(200)));
    let order = supervisor.begin_stop(Platform::Linux).unwrap();
    let session = spawned_on(&mut supervisor, 7861, 11);
    session.handle(&mut supervisor, StartEvent::Probed(ProbeOutcome::Status(200)));
    assert!(supervisor.finish_stop(order.ticket, KillOutcome::Killed).is_ok());
    assert_eq!(supervisor.query(), Some(running(7861)));
    assert_eq!(supervisor.supervised(), Some(ProcessHandle { pid: 11 }));
}

#[test]
fn an_adopted_service_has_no_process_to_stop() {
    let mut supervisor = Supervisor::new();
    let session = StartSession::new(StartConfig::default());
    session.handle(&mut supervisor, StartEvent::Probed(ProbeOutcome::Status(200)));
    assert_eq!(supervisor.query(), Some(running(7860)));
    assert!(matches!(supervisor.begin_stop(Platform::Linux), Err(StopError::NotFound)));
    assert_eq!(supervisor.query(), Some(running(7860)));
}

#[test]
fn published_percentages_never_go_down() {
    let mut supervisor = Supervisor::new();
    let mut session = StartSession::new(StartConfig::default());
    let mut events = vec![
        StartEvent::Probed(ProbeOutcome::Unreachable),
        StartEvent::Bound(BindOutcome::Bound(7860)),
        StartEvent::Resolved(Some(sidecar())),
        StartEvent::Spawned(SpawnOutcome::Started(ProcessHandle { pid: 1 })),
    ];
    for _ in 0..12 {
        events.push(StartEvent::Probed(ProbeOutcome::Status(502)));
    }
    events.push(StartEvent::Probed(ProbeOutcome::Status(200)));
    events.push(StartEvent::Probed(ProbeOutcome::Status(200)));
    let mut percents = Vec::new();
    for event in events {
        let (next, reaction) = session.handle(&mut supervisor, event);
        session = next;
        if let Some(report) = reaction.publish {
            percents.push(report.percent);
        }
    }
    assert_eq!(percents, vec![5, 13, 16, 19, 22, 25, 28, 31, 34, 37, 40, 43, 46, 100]);
    assert!(percents.windows(2).all(|w| w[0] <= w[1]));
}

#[test]
fn supervising_by_hand() {
    let mut supervisor = Supervisor::new();
    assert_eq!(supervisor.supervise(ProcessHandle { pid: 3 }), None);
    assert_eq!(supervisor.supervise(ProcessHandle { pid: 4 }), Some(ProcessHandle { pid: 3 }));
    assert_eq!(supervisor.supervised(), Some(ProcessHandle { pid: 4 }));
    supervisor.register(running(8000));
    assert_eq!(supervisor.query(), Some(running(8000)));
    assert_eq!(supervisor.supervised(), Some(ProcessHandle { pid: 4 }));
}
