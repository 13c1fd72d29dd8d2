use nyra::job::Hotkey;
use nyra::reaction::hotkey::{
    hotkey_change_needed, should_start, HotkeyEvent, HotkeyRegistrar, HOTKEY_ID,
};
use nyra::reaction::runner::{
    check_script_extension, classify_output, trigger_failed, OutputRead, ReactionRunner,
    ScriptRegistry,
};
use nyra::reaction::worker::{
    Flow, RunnerMessage, SdkRequest, WorkerAction, WorkerEvent, WorkerSession,
};
use nyra::reaction::{
    check_log_message, invalid_arguments_message, run_id_for, sdk_method,
    validate_reaction_config, ReactionConfig, RunState, RunStatus, SdkMethod,
};

#[test]
fn validates_the_timeout_range() {
    assert_eq!(ReactionConfig::default().timeout_ms, 30_000);
    assert_eq!(validate_reaction_config(&ReactionConfig { timeout_ms: 1 }), Ok(()));
    assert_eq!(validate_reaction_config(&ReactionConfig { timeout_ms: 300_000 }), Ok(()));
    let message = Err("reaction.timeoutMs must be in the range 1..=300000".to_string());
    assert_eq!(validate_reaction_config(&ReactionConfig { timeout_ms: 0 }), message);
    assert_eq!(validate_reaction_config(&ReactionConfig { timeout_ms: 300_001 }), message);
}

#[test]
fn limits_log_messages_in_utf16_units() {
    assert_eq!(check_log_message(&"a".repeat(2000)), Ok(()));
    let too_long = Err("log(message) length cannot exceed 2000 UTF-16 code units".to_string());
    assert_eq!(check_log_message(&"a".repeat(2001)), too_long);
    // Characters beyond U+FFFF take two units each.
    assert_eq!(check_log_message(&"😀".repeat(1000)), Ok(()));
    assert_eq!(check_log_message(&"😀".repeat(1001)), too_long);
}

#[test]
fn names_sdk_methods_and_runs() {
    assert_eq!(sdk_method("log"), Ok(SdkMethod::Log));
    assert_eq!(sdk_method("click"), Err("Unknown SDK method: click".to_string()));
    assert_eq!(
        invalid_arguments_message("log", "expected a string"),
        "SDK log arguments are invalid: expected a string"
    );
    assert_eq!(run_id_for(4242, 7), "4242-7");
}

fn output(message: RunnerMessage) -> WorkerEvent {
    WorkerEvent::Output { text: "{}\n".to_string(), message: Ok(message) }
}

fn request(run_id: &str, id: u64) -> RunnerMessage {
    RunnerMessage::Request {
        version: 1,
        run_id: run_id.to_string(),
        request: SdkRequest { id, method: "log".to_string(), args: serde_json::Value::Null },
    }
}

fn break_message(flow: Flow) -> String {
    match flow {
        Flow::Break(Err(message)) => message,
        _ => panic!("expected the loop to stop with an error"),
    }
}

#[test]
fn serves_a_run_from_ready_to_completion() {
    let mut session = WorkerSession::new(1, 1000);
    let step = session.handle(WorkerEvent::Run { run_id: "1-1".to_string(), script_id: 0 }, 0);
    assert!(matches!(step.status, Some(RunState::Failed(_))));
    assert!(matches!(step.flow, Flow::Continue));

    let step = session.handle(output(RunnerMessage::Ready { version: 1, script_count: 1 }), 0);
    assert!(matches!(step.action, WorkerAction::SignalReady));
    assert!(session.ready);

    let step = session.handle(WorkerEvent::Run { run_id: "1-1".to_string(), script_id: 0 }, 1);
    match step.action {
        WorkerAction::AcquireSlot { run_id, script_id } => {
            assert_eq!(run_id, "1-1");
            assert_eq!(script_id, 0);
        }
        _ => panic!("expected the slot to be taken"),
    }
    session.run_started("1-1".to_string(), 1);
    assert_eq!(session.timed_out(2), None);
    assert_eq!(
        session.timed_out(1 + 1000 * 1_000_000),
        Some("Script execution timed out (1000 ms)".to_string())
    );

    let step = session.handle(output(request("1-1", 1)), 2);
    match step.action {
        WorkerAction::Dispatch { run_id, request } => {
            assert_eq!(run_id, "1-1");
            assert_eq!(request.id, 1);
        }
        _ => panic!("expected the request to be served"),
    }
    let step = session.handle(
        WorkerEvent::Diagnostic { text: "console output\n".to_string() },
        3,
    );
    match step.action {
        WorkerAction::PrintDiagnostic { run_id, text } => {
            assert_eq!(run_id, "1-1");
            assert_eq!(text, "console output\n");
        }
        _ => panic!("expected the diagnostic to be printed"),
    }
    assert_eq!(session.output_bytes, 3 + 15);

    let step = session.handle(
        output(RunnerMessage::Completed { version: 1, run_id: "1-1".to_string() }),
        4,
    );
    assert!(matches!(step.status, Some(RunState::Completed)));
    assert!(session.active.is_none());
    assert_eq!(session.output_bytes, 0);
    assert!(session.final_status().is_none());
}

#[test]
fn stops_on_protocol_violations() {
    let mut session = WorkerSession::new(2, 1000);
    let step = session.handle(output(RunnerMessage::Ready { version: 1, script_count: 1 }), 0);
    assert_eq!(
        break_message(step.flow),
        "Resident Bun lifecycle message does not match or is duplicated"
    );

    let mut session = WorkerSession::new(1, 1000);
    session.handle(output(RunnerMessage::Ready { version: 1, script_count: 1 }), 0);
    session.run_started("9-1".to_string(), 0);
    let step = session.handle(output(request("9-1", 2)), 1);
    assert_eq!(break_message(step.flow), "SDK request run ID or request ID does not match");
    let step = session.handle(
        output(RunnerMessage::Failed {
            version: 1,
            run_id: "9-2".to_string(),
            error: "boom".to_string(),
        }),
        1,
    );
    assert_eq!(break_message(step.flow), "Script failure message run ID does not match");

    let mut session = WorkerSession::new(1, 1000);
    let step = session.handle(
        WorkerEvent::Output { text: "x\n".to_string(), message: Err("bad json".to_string()) },
        0,
    );
    match step.flow {
        Flow::Abort(message) => assert_eq!(message, "Script stdout protocol error: bad json"),
        _ => panic!("expected the loop to give up"),
    }

    let mut session = WorkerSession::new(1, 1000);
    session.run_started("2-1".to_string(), 0);
    let step = session.handle(WorkerEvent::Cancel, 0);
    assert!(matches!(step.status, Some(RunState::CleaningUp)));
    assert_eq!(
        break_message(step.flow),
        "Script has been cancelled; resident Bun has been reclaimed"
    );
    assert!(matches!(session.final_status(), Some(RunState::CleaningUp)));

    let mut session = WorkerSession::new(1, 1000);
    assert!(matches!(session.handle(WorkerEvent::Closed, 0).flow, Flow::Continue));
    assert_eq!(
        break_message(session.handle(WorkerEvent::Closed, 0).flow),
        "Resident Bun output channel has been disconnected"
    );
    assert!(matches!(session.handle(WorkerEvent::Shutdown, 0).flow, Flow::Break(Ok(()))));

    let mut session = WorkerSession::new(1, 1000);
    let huge = "x".repeat(1024 * 1024 + 1);
    assert_eq!(
        break_message(session.handle(WorkerEvent::Diagnostic { text: huge }, 0).flow),
        "Script cumulative output exceeds 1 MiB"
    );
}

#[test]
fn preloads_each_script_once() {
    let mut registry = ScriptRegistry::new();
    assert_eq!(registry.register("/a.ts".to_string()), Ok(0));
    assert_eq!(registry.register("/b.ts".to_string()), Ok(1));
    assert_eq!(registry.register("/a.ts".to_string()), Ok(0));
    assert_eq!(registry.len(), 2);
    assert_eq!(registry.path(1), "/b.ts");
    assert_eq!(registry.id_of(&"/b.ts".to_string()), Some(1));
    assert_eq!(registry.id_of(&"/c.ts".to_string()), None);
}

#[test]
fn starts_one_run_at_a_time() {
    let mut registry = ScriptRegistry::new();
    registry.register("/s/a.ts".to_string()).unwrap();
    assert!(matches!(
        ReactionRunner::new(ScriptRegistry::new(), None),
        Err(message) if message == "Waiting for resident Bun initialization timed out"
    ));
    assert!(matches!(
        ReactionRunner::new(ScriptRegistry::new(), Some(Err("no bun".to_string()))),
        Err(message) if message == "no bun"
    ));
    let mut runner = match ReactionRunner::new(registry, Some(Ok(()))) {
        Ok(runner) => runner,
        Err(_) => panic!("expected a ready runner"),
    };
    let mut status = RunStatus::idle();
    assert!(!status.is_busy());
    assert!(runner.cancel());

    assert_eq!(
        runner.start(&mut status, 77, Err("The script must be a .ts or .mts file: x.js".to_string())),
        Err("The script must be a .ts or .mts file: x.js".to_string())
    );
    assert_eq!(
        runner.start(&mut status, 77, Ok("/s/b.ts".to_string())),
        Err("The script was not preloaded by the resident Bun: /s/b.ts".to_string())
    );
    assert_eq!(
        runner.start(&mut status, 77, Ok("/s/a.ts".to_string())),
        Ok(("77-1".to_string(), 0))
    );
    assert!(status.is_busy());
    let snapshot = status.snapshot();
    assert_eq!(snapshot.run_id, Some("77-1".to_string()));
    assert_eq!(snapshot.state, RunState::Running);
    assert_eq!(
        runner.start(&mut status, 77, Ok("/s/a.ts".to_string())),
        Err("A TS script is already running or cleaning up, this trigger is rejected".to_string())
    );

    status.state = RunState::Completed;
    assert!(!status.is_busy());
    assert_eq!(
        runner.start(&mut status, 77, Ok("/s/a.ts".to_string())),
        Ok(("77-2".to_string(), 0))
    );
    let message = trigger_failed(&mut status, "channel full");
    assert_eq!(message, "Unable to trigger resident Bun: channel full");
    assert_eq!(status.state, RunState::Failed(message));
    assert_eq!(status.run_id, Some("77-2".to_string()));

    runner.poll(&mut status, false, false);
    assert!(runner.cancel());
    runner.poll(&mut status, true, false);
    assert_eq!(
        status.state,
        RunState::Failed("Resident script management thread exited unexpectedly".to_string())
    );
    assert!(!runner.cancel());
    assert_eq!(
        runner.start(&mut status, 77, Ok("/s/a.ts".to_string())),
        Err("The current configuration has no runnable Reaction scripts".to_string())
    );
}

#[test]
fn checks_script_extensions() {
    assert_eq!(check_script_extension(Some("ts"), "a.ts"), Ok(()));
    assert_eq!(check_script_extension(Some("mts"), "a.mts"), Ok(()));
    assert_eq!(
        check_script_extension(Some("js"), "a.js"),
        Err("The script must be a .ts or .mts file: a.js".to_string())
    );
    assert_eq!(
        check_script_extension(None, "a"),
        Err("The script must be a .ts or .mts file: a".to_string())
    );
}

#[test]
fn classifies_output_lines() {
    assert!(matches!(classify_output(Ok(Vec::new())), OutputRead::Closed));
    match classify_output(Ok("héllo\n".as_bytes().to_vec())) {
        OutputRead::Line(text) => assert_eq!(text, "héllo\n"),
        _ => panic!("expected a line"),
    }
    match classify_output(Ok(vec![0xff, b'\n'])) {
        OutputRead::Error(message) => assert_eq!(message, "Script output is not valid UTF-8"),
        _ => panic!("expected an error"),
    }
    match classify_output(Ok(vec![b'a'; 16 * 1024 + 1])) {
        OutputRead::Error(message) => assert_eq!(message, "Script output line exceeds 16 KiB"),
        _ => panic!("expected an error"),
    }
    match classify_output(Err("broken pipe".to_string())) {
        OutputRead::Error(message) => assert_eq!(message, "Failed to read script output: broken pipe"),
        _ => panic!("expected an error"),
    }
}

#[test]
fn registers_the_hotkey_of_the_tip_on_screen() {
    let hotkey = Hotkey::parse("Ctrl+Alt+R").unwrap();
    let mut registrar = HotkeyRegistrar::new();
    let change = registrar.change(Some(hotkey.clone()));
    assert!(!change.unregister);
    match registrar.registration_result(hotkey.clone(), true, String::new()) {
        HotkeyEvent::Registered(Some(h)) => assert_eq!(h, hotkey),
        _ => panic!("expected the hotkey to be registered"),
    }
    match registrar.on_hotkey_message(HOTKEY_ID) {
        Some(HotkeyEvent::Triggered(h)) => assert_eq!(h, hotkey),
        _ => panic!("expected the hotkey to fire"),
    }
    assert!(registrar.on_hotkey_message(HOTKEY_ID + 1).is_none());
    let change = registrar.change(None);
    assert!(change.unregister);
    assert!(change.register.is_none());
    assert!(registrar.on_hotkey_message(HOTKEY_ID).is_none());
    match registrar.registration_result(hotkey.clone(), false, "in use".to_string()) {
        HotkeyEvent::RegistrationFailed(m) => {
            assert_eq!(m, "Unable to register global hotkey Ctrl+Alt+R: in use")
        }
        _ => panic!("expected the registration to fail"),
    }

    let other = Hotkey::parse("F8").unwrap();
    assert!(should_start(&Some(hotkey.clone()), &hotkey));
    assert!(!should_start(&Some(hotkey.clone()), &other));
    assert!(!should_start(&None, &hotkey));
    assert!(hotkey_change_needed(&None, &Some(hotkey.clone())));
    assert!(!hotkey_change_needed(&Some(hotkey.clone()), &Some(hotkey.clone())));
}

#[test]
fn a_failed_script_ends_only_its_run() {
    let mut session = WorkerSession::new(1, 1000);
    session.handle(output(RunnerMessage::Ready { version: 1, script_count: 1 }), 0);
    session.run_started("5-1".to_string(), 0);
    let step = session.handle(
        output(RunnerMessage::Failed {
            version: 1,
            run_id: "5-1".to_string(),
            error: "TypeError: x".to_string(),
        }),
        1,
    );
    assert!(matches!(step.status, Some(RunState::Failed(ref e)) if e == "TypeError: x"));
    assert!(matches!(step.flow, Flow::Continue));
    assert!(session.active.is_none());
    assert!(session.ready);
    let step = session.handle(WorkerEvent::Run { run_id: "5-2".to_string(), script_id: 0 }, 2);
    assert!(matches!(step.action, WorkerAction::AcquireSlot { .. }));
}

#[test]
fn starts_no_bun_without_scripts() {
    assert!(!ReactionRunner::starts_bun(&ScriptRegistry::new()));
    let mut registry = ScriptRegistry::new();
    registry.register("/s/a.ts".to_string()).unwrap();
    assert!(ReactionRunner::starts_bun(&registry));

    let mut runner = ReactionRunner::without_bun(ScriptRegistry::new());
    let mut status = RunStatus::idle();
    assert!(!runner.cancel());
    assert!(!runner.would_start(&status, &Ok("/s/a.ts".to_string())));
    assert_eq!(
        runner.start(&mut status, 1, Ok("/s/a.ts".to_string())),
        Err("The script was not preloaded by the resident Bun: /s/a.ts".to_string())
    );

    let mut runner = ReactionRunner::without_bun(registry);
    assert!(!runner.would_start(&status, &Ok("/s/a.ts".to_string())));
    assert_eq!(
        runner.start(&mut status, 1, Ok("/s/a.ts".to_string())),
        Err("The current configuration has no runnable Reaction scripts".to_string())
    );
}

#[test]
fn tells_whether_a_trigger_would_start() {
    let mut registry = ScriptRegistry::new();
    registry.register("/s/a.ts".to_string()).unwrap();
    let runner = match ReactionRunner::new(registry, Some(Ok(()))) {
        Ok(runner) => runner,
        Err(_) => panic!("expected a ready runner"),
    };
    let mut status = RunStatus::idle();
    assert!(runner.would_start(&status, &Ok("/s/a.ts".to_string())));
    assert!(!runner.would_start(&status, &Ok("/s/b.ts".to_string())));
    assert!(!runner.would_start(&status, &Err("bad".to_string())));
    status.state = RunState::Running;
    assert!(!runner.would_start(&status, &Ok("/s/a.ts".to_string())));
}
