use eval_bot::language::LanguageRegistry;
use eval_bot::outcome::ExecutionOutcome;
use eval_bot::pipeline::{build_sandbox_argv, Action, Event, Pipeline, Stage, RUN_TIMEOUT_SECS};

fn argv_of(a: &Action) -> Vec<String> {
    match a {
        Action::Compile { argv } | Action::Spawn { argv } => argv.clone(),
        Action::Finish { .. } => panic!("expected a command"),
    }
}

fn ok_step() -> Event {
    Event::StepExited { success: true, stderr: Vec::new() }
}

#[test]
fn interpreted_language_runs_at_once() {
    let r = LanguageRegistry::standard();
    let (p, a) = Pipeline::new(r.find("js").unwrap(), "/tmp/ws1");
    assert!(matches!(a, Action::Spawn { .. }));
    assert_eq!(p.current_stage(), Stage::Running);
    assert_eq!(
        argv_of(&a),
        vec![
            "firejail",
            "--quiet",
            "--net=none",
            "--private-cwd",
            "--private-opt=none",
            "--private-etc=none",
            "--private=/tmp/ws1",
            "/bin/bash",
            "-c",
            "ulimit -v 2000000 -f 100 && node --max-old-space-size=2000 main.js",
        ]
    );
}

#[test]
fn build_steps_run_in_order_before_the_program() {
    let r = LanguageRegistry::standard();
    let (mut p, a) = Pipeline::new(r.find("java").unwrap(), "/w");
    assert_eq!(argv_of(&a), vec!["/bin/sh", "-c", "mv main.java Main.java"]);
    assert_eq!(p.current_stage(), Stage::Compiling(0));
    let a = p.advance(ok_step());
    assert!(matches!(a, Action::Compile { .. }));
    assert_eq!(argv_of(&a), vec!["/bin/sh", "-c", "javac Main.java"]);
    let a = p.advance(ok_step());
    assert!(matches!(a, Action::Spawn { .. }));
    assert_eq!(argv_of(&a)[6], "--private=/w");
    assert_eq!(p.current_stage(), Stage::Running);
}

#[test]
fn compile_failure_never_starts_the_program() {
    let r = LanguageRegistry::standard();
    let (mut p, _) = Pipeline::new(r.find("rs").unwrap(), "/w");
    let a = p.advance(Event::StepExited { success: false, stderr: b"error[E0425]".to_vec() });
    match a {
        Action::Finish { outcome } => assert_eq!(
            outcome,
            ExecutionOutcome::CompileFailure { stderr: "error[E0425]".to_string() }
        ),
        _ => panic!("expected the end"),
    }
    assert_eq!(p.current_stage(), Stage::Finished);
    let a = p.advance(ok_step());
    assert!(matches!(
        a,
        Action::Finish { outcome: ExecutionOutcome::InfrastructureError { .. } }
    ));
    assert_eq!(p.current_stage(), Stage::Finished);
}

#[test]
fn success_reports_decoded_stdout() {
    let r = LanguageRegistry::standard();
    let (mut p, _) = Pipeline::new(r.find("js").unwrap(), "/w");
    let a = p.advance(Event::RunExited {
        success: true,
        stdout: b"hello\n".to_vec(),
        stderr: b"ignored".to_vec(),
    });
    match a {
        Action::Finish { outcome } => {
            assert_eq!(outcome, ExecutionOutcome::Success { stdout: "hello\n".to_string() })
        }
        _ => panic!("expected the end"),
    }
}

#[test]
fn invalid_utf8_is_replaced() {
    let r = LanguageRegistry::standard();
    let (mut p, _) = Pipeline::new(r.find("js").unwrap(), "/w");
    let a = p.advance(Event::RunExited { success: true, stdout: vec![b'a', 0xff, b'b'], stderr: vec![] });
    match a {
        Action::Finish { outcome } => {
            assert_eq!(outcome, ExecutionOutcome::Success { stdout: "a\u{fffd}b".to_string() })
        }
        _ => panic!("expected the end"),
    }
}

#[test]
fn non_zero_exit_is_runtime_failure() {
    let r = LanguageRegistry::standard();
    let (mut p, _) = Pipeline::new(r.find("py").unwrap(), "/w");
    let _ = p.advance(ok_step());
    let a = p.advance(Event::RunExited {
        success: false,
        stdout: b"out".to_vec(),
        stderr: b"Traceback".to_vec(),
    });
    match a {
        Action::Finish { outcome } => assert_eq!(
            outcome,
            ExecutionOutcome::RuntimeFailure {
                stderr: "Traceback".to_string(),
                stdout: "out".to_string()
            }
        ),
        _ => panic!("expected the end"),
    }
}

#[test]
fn timeout_is_reported() {
    assert_eq!(RUN_TIMEOUT_SECS, 5);
    let r = LanguageRegistry::standard();
    let (mut p, _) = Pipeline::new(r.find("sh").unwrap(), "/w");
    let _ = p.advance(ok_step());
    let a = p.advance(Event::TimedOut);
    assert!(matches!(a, Action::Finish { outcome: ExecutionOutcome::TimedOut }));
}

#[test]
fn failure_to_set_up_is_infrastructure_error() {
    let r = LanguageRegistry::standard();
    let (mut p, _) = Pipeline::new(r.find("c").unwrap(), "/w");
    let a = p.advance(Event::Failed { cause: "no such file".to_string() });
    match a {
        Action::Finish { outcome } => assert_eq!(
            outcome,
            ExecutionOutcome::InfrastructureError { cause: "no such file".to_string() }
        ),
        _ => panic!("expected the end"),
    }
}

#[test]
fn run_event_while_building_is_unexpected() {
    let r = LanguageRegistry::standard();
    let (mut p, _) = Pipeline::new(r.find("go").unwrap(), "/w");
    let a = p.advance(Event::TimedOut);
    match a {
        Action::Finish { outcome } => assert_eq!(
            outcome,
            ExecutionOutcome::InfrastructureError { cause: "unexpected process event".to_string() }
        ),
        _ => panic!("expected the end"),
    }
}

#[test]
fn separate_requests_get_separate_workspaces() {
    let a = build_sandbox_argv("/tmp/one", "./main");
    let b = build_sandbox_argv("/tmp/two", "./main");
    assert_eq!(a[6], "--private=/tmp/one");
    assert_eq!(b[6], "--private=/tmp/two");
    assert_eq!(a[9], "ulimit -v 2000000 -f 100 && ./main");
}
