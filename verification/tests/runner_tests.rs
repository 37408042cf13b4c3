use limage::config::{ConfigError, LimageConfig};
use limage::runner::{
    classify_exit_code, is_test_executable, normal_exit_code, outcome_exit_code, pending_action,
    supervise_step, Runner, RunError, SuperviseAction, SuperviseEvent, SuperviseState, TestResult,
};

#[test]
fn success_code_is_success() {
    assert_eq!(classify_exit_code(33, 33), TestResult::Success);
}

#[test]
fn zero_is_failure_when_success_code_differs() {
    assert_eq!(classify_exit_code(0, 33), TestResult::Failure);
}

#[test]
fn other_codes_are_failures() {
    assert_eq!(classify_exit_code(1, 33), TestResult::Failure);
    assert_eq!(classify_exit_code(34, 33), TestResult::Failure);
    assert_eq!(classify_exit_code(-1, 33), TestResult::Failure);
}

#[test]
fn zero_is_success_when_it_is_the_success_code() {
    assert_eq!(classify_exit_code(0, 0), TestResult::Success);
}

#[test]
fn outcome_exit_codes() {
    assert_eq!(outcome_exit_code(TestResult::Success), 0);
    assert_eq!(outcome_exit_code(TestResult::Failure), 1);
    assert_eq!(outcome_exit_code(TestResult::Timeout), 2);
}

#[test]
fn normal_mode_exit_codes() {
    assert_eq!(normal_exit_code(Some(0)), 0);
    assert_eq!(normal_exit_code(Some(42)), 42);
    assert_eq!(normal_exit_code(None), 1);
}

#[test]
fn supervised_exit_with_success_code_reports_success() {
    // The emulator exits on its own (say after five seconds) with the
    // configured success code, well within a 300 second deadline.
    let r = supervise_step(
        SuperviseState::Waiting,
        SuperviseEvent::ExitedWithin { status_code: Some(33) },
        33,
        300,
    )
    .unwrap();
    assert_eq!(r.0, SuperviseState::Done(TestResult::Success));
    assert_eq!(r.1, SuperviseAction::Report { result: TestResult::Success });
    let SuperviseAction::Report { result } = r.1 else { panic!() };
    assert_eq!(outcome_exit_code(result), 0);
}

#[test]
fn supervised_exit_with_other_code_reports_failure() {
    let r = supervise_step(
        SuperviseState::Waiting,
        SuperviseEvent::ExitedWithin { status_code: Some(0) },
        33,
        300,
    )
    .unwrap();
    assert_eq!(r.0, SuperviseState::Done(TestResult::Failure));
    let SuperviseAction::Report { result } = r.1 else { panic!() };
    assert_eq!(outcome_exit_code(result), 1);
}

#[test]
fn timeout_kills_then_reaps_then_reports() {
    // The emulator never exits under a short deadline: the machine demands
    // a kill, then a blocking reap, and only then reports the timeout.
    let (s1, a1) =
        supervise_step(SuperviseState::Waiting, SuperviseEvent::DeadlineElapsed, 33, 2).unwrap();
    assert_eq!(s1, SuperviseState::Killing);
    assert_eq!(a1, SuperviseAction::Kill);
    let (s2, a2) = supervise_step(s1, SuperviseEvent::KillDelivered, 33, 2).unwrap();
    assert_eq!(s2, SuperviseState::Reaping);
    assert_eq!(a2, SuperviseAction::Reap);
    let (s3, a3) = supervise_step(s2, SuperviseEvent::Reaped, 33, 2).unwrap();
    assert_eq!(s3, SuperviseState::Done(TestResult::Timeout));
    assert_eq!(a3, SuperviseAction::Report { result: TestResult::Timeout });
    let SuperviseAction::Report { result } = a3 else { panic!() };
    assert_eq!(outcome_exit_code(result), 2);
}

#[test]
fn missing_exit_code_is_an_error_in_test_mode() {
    let r = supervise_step(
        SuperviseState::Waiting,
        SuperviseEvent::ExitedWithin { status_code: None },
        33,
        300,
    );
    assert_eq!(r, Err(RunError::MissingExitCode));
}

#[test]
fn process_failures_map_to_their_errors() {
    assert_eq!(
        supervise_step(SuperviseState::Waiting, SuperviseEvent::WaitFailed, 33, 300),
        Err(RunError::WaitTimeout)
    );
    assert_eq!(
        supervise_step(SuperviseState::Killing, SuperviseEvent::KillFailed, 33, 300),
        Err(RunError::KillQemu)
    );
    assert_eq!(
        supervise_step(SuperviseState::Reaping, SuperviseEvent::ReapFailed, 33, 300),
        Err(RunError::WaitQemu)
    );
}

#[test]
fn pending_actions_per_state() {
    assert_eq!(
        pending_action(&SuperviseState::Waiting, 300),
        SuperviseAction::WaitWithDeadline { timeout_secs: 300 }
    );
    assert_eq!(pending_action(&SuperviseState::Killing, 300), SuperviseAction::Kill);
    assert_eq!(pending_action(&SuperviseState::Reaping, 300), SuperviseAction::Reap);
    assert_eq!(
        pending_action(&SuperviseState::Done(TestResult::Success), 300),
        SuperviseAction::Report { result: TestResult::Success }
    );
}

#[test]
fn terminal_state_stays_reported() {
    let done = SuperviseState::Done(TestResult::Failure);
    let (s, a) = supervise_step(done, SuperviseEvent::Reaped, 33, 300).unwrap();
    assert_eq!(s, done);
    assert_eq!(a, SuperviseAction::Report { result: TestResult::Failure });
}

#[test]
fn config_error_converts_into_run_error() {
    let e = ConfigError::ReadConfig { message: "unreadable".to_string() };
    assert_eq!(
        RunError::from(e),
        RunError::Config { source: ConfigError::ReadConfig { message: "unreadable".to_string() } }
    );
}

#[test]
fn kernel_under_deps_is_a_test_executable() {
    assert!(is_test_executable(
        &"target/x86_64-unknown-none/debug/deps/my_test".to_string()
    ));
}

#[test]
fn kernel_under_rustdoctest_dir_is_a_test_executable() {
    assert!(is_test_executable(&"tmp/rustdoctest123/rust_out".to_string()));
}

#[test]
fn ordinary_kernel_is_not_a_test_executable() {
    assert!(!is_test_executable(
        &"target/x86_64-unknown-none/debug/kernel".to_string()
    ));
    assert!(!is_test_executable(&"kernel".to_string()));
    assert!(!is_test_executable(&"".to_string()));
}

#[test]
fn runner_command_line_in_test_mode() {
    let runner = Runner::new(LimageConfig::default(), true);
    let cmd = runner.command_line();
    assert_eq!(cmd[0], "qemu-system-x86_64");
    assert!(cmd.contains(&"-no-reboot".to_string()));
    assert!(cmd.contains(&"target/kernel.iso".to_string()));
}

#[test]
fn runner_command_line_in_normal_mode() {
    let runner = Runner::new(LimageConfig::default(), false);
    let cmd = runner.command_line();
    assert!(!cmd.contains(&"-no-reboot".to_string()));
}
