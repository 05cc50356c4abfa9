//! Tests of the derived build invocation and the classification of
//! process outcomes.

use openblas_build::classify_outcome;
use openblas_build::BuildOption;
use openblas_build::Error;
use openblas_build::Interface;
use openblas_build::ProcessOutcome;
use openblas_build::Target;

#[test]
fn build_command_derives_workdir_logs_and_args() {
    let opt = BuildOption {
        use_thread: true,
        target: Some(Target::HASWELL),
        ..BuildOption::default()
    };
    let cmd = opt.build_command(&"/tmp/obt_out".to_string());
    assert_eq!(cmd.program, "make");
    assert_eq!(cmd.workdir, "/tmp/obt_out");
    assert_eq!(cmd.stdout_log, "/tmp/obt_out/out.log");
    assert_eq!(cmd.stderr_log, "/tmp/obt_out/err.log");
    assert_eq!(cmd.args, vec!["USE_THREAD=1".to_string(), "TARGET=HASWELL".to_string()]);
}

#[test]
fn command_line_is_program_and_args_space_separated() {
    let opt = BuildOption {
        no_static: true,
        interface: Interface::ILP64,
        ..BuildOption::default()
    };
    let cmd = opt.build_command(&"/tmp/obt_out".to_string());
    assert_eq!(cmd.command_line(), "make NO_STATIC=1 INTERFACE64=1");
    let bare = BuildOption::default().build_command(&"/tmp/obt_out".to_string());
    assert_eq!(bare.command_line(), "make");
}

#[test]
fn zero_exit_classifies_as_success() {
    let r = classify_outcome("make".to_string(), &ProcessOutcome::Exited(0));
    assert!(r.is_ok());
}

#[test]
fn nonzero_exit_reports_status_and_command_line() {
    let r = classify_outcome("make NO_STATIC=1".to_string(), &ProcessOutcome::Exited(42));
    match r {
        Err(e @ Error::BuildFailure { .. }) => {
            let msg = e.message();
            assert_eq!(
                msg,
                "Subprocess returns with non-zero status: `make NO_STATIC=1` (exit status: 42)"
            );
            assert!(msg.contains("exit status: 42"));
            assert!(msg.contains("make NO_STATIC=1"));
        },
        other => panic!("expected a build failure, got {:?}", other),
    }
}

#[test]
fn negative_exit_code_renders_with_sign() {
    let r = classify_outcome("make".to_string(), &ProcessOutcome::Exited(-9));
    match r {
        Err(e) => assert!(e.message().contains("exit status: -9")),
        other => panic!("expected a build failure, got {:?}", other),
    }
}

#[test]
fn kill_without_exit_code_is_a_build_failure() {
    let r = classify_outcome("make".to_string(), &ProcessOutcome::Terminated);
    match r {
        Err(Error::BuildFailure { command, exit_code }) => {
            assert_eq!(command, "make");
            assert!(exit_code.is_none());
        },
        other => panic!("expected a build failure, got {:?}", other),
    }
}

#[test]
fn spawn_failure_is_distinct_from_build_failure() {
    let r = classify_outcome(
        "make".to_string(),
        &ProcessOutcome::SpawnFailed("No such file or directory".to_string()),
    );
    match r {
        Err(e @ Error::Launch { .. }) => {
            let msg = e.message();
            assert_eq!(
                msg,
                "Subprocess execution failed: `make` (No such file or directory)"
            );
        },
        other => panic!("expected a launch error, got {:?}", other),
    }
}

#[test]
fn multi_digit_exit_codes_render_in_decimal() {
    let r = classify_outcome("make".to_string(), &ProcessOutcome::Exited(139));
    match r {
        Err(e) => assert!(e.message().ends_with("(exit status: 139)")),
        other => panic!("expected a build failure, got {:?}", other),
    }
}
