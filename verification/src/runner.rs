//! The execution harness: classifies a supervised emulator run as success,
//! failure or timeout, and drives the kill-then-reap termination protocol
//! as a state machine. The driver program performs the actual process
//! operations and feeds their outcomes back as events.

use vstd::prelude::*;
use vstd::string::*;
use crate::config::ConfigError;
use crate::config::LimageConfig;
use crate::config::spec_qemu_command;
use crate::paths;
use crate::template;

verus! {

/// Classification of one supervised emulator run. A pure value: it carries
/// no process state.
#[derive(Clone, Copy, Debug, PartialEq, Eq, Structural)]
pub enum TestResult {
    Success,
    Failure,
    Timeout,
}

/// The process exit code the caller reports for a test-mode outcome.
pub open spec fn spec_outcome_exit_code(result: TestResult) -> i32 {
    match result {
        TestResult::Success => 0,
        TestResult::Failure => 1,
        TestResult::Timeout => 2,
    }
}

/// The single table mapping a test outcome to the tool's process exit code:
/// `Success` to 0, `Failure` to 1, `Timeout` to 2.
pub fn outcome_exit_code(result: TestResult) -> (code: i32)
    ensures
        code == spec_outcome_exit_code(result),
{
    match result {
        TestResult::Success => 0,
        TestResult::Failure => 1,
        TestResult::Timeout => 2,
    }
}

/// The outcome-to-exit-code table takes each of the three outcomes to its
/// own code, and 0, 1 and 2 are the only codes it can produce.
pub proof fn lemma_outcome_exit_code_table(result: TestResult)
    ensures
        spec_outcome_exit_code(TestResult::Success) == 0,
        spec_outcome_exit_code(TestResult::Failure) == 1,
        spec_outcome_exit_code(TestResult::Timeout) == 2,
        0 <= spec_outcome_exit_code(result) <= 2,
{
}

/// How a supervised process's exit code is classified: exactly the
/// configured success code counts as success, every other code is a
/// failure. A timeout never comes out of exit-code classification.
pub open spec fn spec_classify_exit_code(code: i32, success_exit_code: i32) -> TestResult {
    if code == success_exit_code {
        TestResult::Success
    } else {
        TestResult::Failure
    }
}

/// Classifies the exit code of a supervised process that exited before the
/// deadline.
pub fn classify_exit_code(code: i32, success_exit_code: i32) -> (result: TestResult)
    ensures
        result == spec_classify_exit_code(code, success_exit_code),
{
    if code == success_exit_code {
        TestResult::Success
    } else {
        TestResult::Failure
    }
}

/// Exit-code classification law: a run is a success exactly when the code
/// equals the configured success code; in particular an exit code of 0 is a
/// failure whenever the success code is not 0, and classification never
/// yields a timeout.
pub proof fn lemma_exit_code_classification(code: i32, success_exit_code: i32)
    ensures
        spec_classify_exit_code(code, success_exit_code) == TestResult::Success <==> code
            == success_exit_code,
        code != success_exit_code ==> spec_classify_exit_code(code, success_exit_code)
            == TestResult::Failure,
        success_exit_code != 0 ==> spec_classify_exit_code(0, success_exit_code)
            == TestResult::Failure,
        spec_classify_exit_code(code, success_exit_code) != TestResult::Timeout,
{
}

/// The exit code a normal (unsupervised) run reports: the emulator's own
/// code, or the fixed fallback 1 when the process terminated without one
/// (for example by a signal).
pub open spec fn spec_normal_exit_code(status_code: Option<i32>) -> i32 {
    match status_code {
        Some(code) => code,
        None => 1,
    }
}

/// Maps the observed exit status of a normal-mode run to the code the tool
/// passes through.
pub fn normal_exit_code(status_code: Option<i32>) -> (code: i32)
    ensures
        code == spec_normal_exit_code(status_code),
{
    match status_code {
        Some(code) => code,
        None => 1,
    }
}

/// A failure of the execution harness.
#[derive(Debug, PartialEq, Eq)]
pub enum RunError {
    /// A configuration error surfaced through the runner.
    Config { source: ConfigError },
    /// The emulator process could not be started.
    StartQemu,
    /// The bounded wait on the supervised process failed.
    WaitTimeout,
    /// The termination signal could not be sent after the deadline.
    KillQemu,
    /// The blocking wait after the kill failed.
    WaitQemu,
    /// The supervised process exited without an exit code.
    MissingExitCode,
}

impl From<ConfigError> for RunError {
    fn from(error: ConfigError) -> RunError {
        RunError::Config { source: error }
    }
}

impl vstd::std_specs::convert::FromSpecImpl<ConfigError> for RunError {
    open spec fn obeys_from_spec() -> bool {
        true
    }

    open spec fn from_spec(error: ConfigError) -> RunError {
        RunError::Config { source: error }
    }
}

/// The supervision state of one test-mode run. `Waiting` is entered at
/// spawn; `Done` is terminal.
#[derive(Debug, Clone, Copy, PartialEq, Eq, Structural)]
pub enum SuperviseState {
    /// The process runs and the harness blocks on it under the deadline.
    Waiting,
    /// The deadline elapsed; the termination signal is being sent.
    Killing,
    /// The kill was delivered; the process is being reclaimed.
    Reaping,
    /// The run is classified; no further transitions.
    Done(TestResult),
}

/// What the driver observed after performing the pending action.
#[derive(Debug, Clone, Copy, PartialEq, Eq)]
pub enum SuperviseEvent {
    /// The process exited before the deadline, with the given exit code
    /// (none when it was terminated without one, for example by a signal).
    ExitedWithin { status_code: Option<i32> },
    /// The deadline elapsed with the process still running.
    DeadlineElapsed,
    /// The bounded wait itself failed.
    WaitFailed,
    /// The termination signal was sent.
    KillDelivered,
    /// The termination signal could not be sent.
    KillFailed,
    /// The blocking wait reclaimed the process.
    Reaped,
    /// The blocking wait after the kill failed.
    ReapFailed,
}

/// What the driver must do next.
#[derive(Debug, Clone, Copy, PartialEq, Eq, Structural)]
pub enum SuperviseAction {
    /// Block on the process, giving up after the deadline.
    WaitWithDeadline { timeout_secs: u32 },
    /// Send the termination signal.
    Kill,
    /// Block until the process is reclaimed.
    Reap,
    /// The run is classified; report the result.
    Report { result: TestResult },
}

/// The action pending in each supervision state.
pub open spec fn spec_pending_action(state: SuperviseState, timeout_secs: u32) -> SuperviseAction {
    match state {
        SuperviseState::Waiting => SuperviseAction::WaitWithDeadline { timeout_secs },
        SuperviseState::Killing => SuperviseAction::Kill,
        SuperviseState::Reaping => SuperviseAction::Reap,
        SuperviseState::Done(result) => SuperviseAction::Report { result },
    }
}

/// The action the driver performs in the given supervision state.
pub fn pending_action(state: &SuperviseState, timeout_secs: u32) -> (a: SuperviseAction)
    ensures
        a == spec_pending_action(*state, timeout_secs),
{
    match state {
        SuperviseState::Waiting => SuperviseAction::WaitWithDeadline { timeout_secs },
        SuperviseState::Killing => SuperviseAction::Kill,
        SuperviseState::Reaping => SuperviseAction::Reap,
        SuperviseState::Done(result) => SuperviseAction::Report { result: *result },
    }
}

/// The supervision transition relation. An exit before the deadline is
/// classified at once; an elapsed deadline starts the mandatory
/// kill-then-reap-then-report order; a timeout is reported only from
/// `Reaping`, after the process was reclaimed. An event that does not
/// answer the pending action leaves the state unchanged and re-issues the
/// pending action. Each process failure aborts with its own error.
pub open spec fn spec_supervise_step(
    state: SuperviseState,
    event: SuperviseEvent,
    success_exit_code: i32,
    timeout_secs: u32,
) -> Result<(SuperviseState, SuperviseAction), RunError> {
    match state {
        SuperviseState::Waiting => match event {
            SuperviseEvent::ExitedWithin { status_code } => match status_code {
                Some(code) => {
                    let result = spec_classify_exit_code(code, success_exit_code);
                    Ok((SuperviseState::Done(result), SuperviseAction::Report { result }))
                },
                None => Err(RunError::MissingExitCode),
            },
            SuperviseEvent::DeadlineElapsed => Ok(
                (SuperviseState::Killing, SuperviseAction::Kill),
            ),
            SuperviseEvent::WaitFailed => Err(RunError::WaitTimeout),
            _ => Ok((state, spec_pending_action(state, timeout_secs))),
        },
        SuperviseState::Killing => match event {
            SuperviseEvent::KillDelivered => Ok((SuperviseState::Reaping, SuperviseAction::Reap)),
            SuperviseEvent::KillFailed => Err(RunError::KillQemu),
            _ => Ok((state, spec_pending_action(state, timeout_secs))),
        },
        SuperviseState::Reaping => match event {
            SuperviseEvent::Reaped => Ok(
                (
                    SuperviseState::Done(TestResult::Timeout),
                    SuperviseAction::Report { result: TestResult::Timeout },
                ),
            ),
            SuperviseEvent::ReapFailed => Err(RunError::WaitQemu),
            _ => Ok((state, spec_pending_action(state, timeout_secs))),
        },
        SuperviseState::Done(result) => Ok(
            (state, SuperviseAction::Report { result }),
        ),
    }
}

/// Advances the supervision machine by one observed event, exactly as
/// `spec_supervise_step` lays the transitions down.
pub fn supervise_step(
    state: SuperviseState,
    event: SuperviseEvent,
    success_exit_code: i32,
    timeout_secs: u32,
) -> (r: Result<(SuperviseState, SuperviseAction), RunError>)
    ensures
        r == spec_supervise_step(state, event, success_exit_code, timeout_secs),
{
    match state {
        SuperviseState::Waiting => match event {
            SuperviseEvent::ExitedWithin { status_code } => match status_code {
                Some(code) => {
                    let result = classify_exit_code(code, success_exit_code);
                    Ok((SuperviseState::Done(result), SuperviseAction::Report { result }))
                },
                None => Err(RunError::MissingExitCode),
            },
            SuperviseEvent::DeadlineElapsed => Ok(
                (SuperviseState::Killing, SuperviseAction::Kill),
            ),
            SuperviseEvent::WaitFailed => Err(RunError::WaitTimeout),
            _ => Ok((state, pending_action(&state, timeout_secs))),
        },
        SuperviseState::Killing => match event {
            SuperviseEvent::KillDelivered => Ok((SuperviseState::Reaping, SuperviseAction::Reap)),
            SuperviseEvent::KillFailed => Err(RunError::KillQemu),
            _ => Ok((state, pending_action(&state, timeout_secs))),
        },
        SuperviseState::Reaping => match event {
            SuperviseEvent::Reaped => Ok(
                (
                    SuperviseState::Done(TestResult::Timeout),
                    SuperviseAction::Report { result: TestResult::Timeout },
                ),
            ),
            SuperviseEvent::ReapFailed => Err(RunError::WaitQemu),
            _ => Ok((state, pending_action(&state, timeout_secs))),
        },
        SuperviseState::Done(result) => Ok((state, SuperviseAction::Report { result })),
    }
}

/// The state the machine reaches from `state` after the whole sequence of
/// observed events, or the first error on the way.
pub open spec fn run_machine(
    state: SuperviseState,
    events: Seq<SuperviseEvent>,
    success_exit_code: i32,
    timeout_secs: u32,
) -> Result<SuperviseState, RunError>
    decreases events.len(),
{
    if events.len() == 0 {
        Ok(state)
    } else {
        match spec_supervise_step(state, events[0], success_exit_code, timeout_secs) {
            Ok(pair) => run_machine(pair.0, events.drop_first(), success_exit_code, timeout_secs),
            Err(e) => Err(e),
        }
    }
}

/// A terminal state never changes, whatever else is observed.
pub proof fn lemma_done_is_terminal(
    result: TestResult,
    events: Seq<SuperviseEvent>,
    success_exit_code: i32,
    timeout_secs: u32,
)
    ensures
        run_machine(SuperviseState::Done(result), events, success_exit_code, timeout_secs)
            == Ok::<SuperviseState, RunError>(SuperviseState::Done(result)),
    decreases events.len(),
{
    if events.len() > 0 {
        lemma_done_is_terminal(result, events.drop_first(), success_exit_code, timeout_secs);
    }
}

/// The deadline elapsed, the kill was delivered, and the process was
/// reclaimed, in this order, somewhere in the observed events.
pub open spec fn ordered_kill_protocol(events: Seq<SuperviseEvent>) -> bool {
    exists|i: int, j: int, k: int|
        0 <= i && i < j && j < k && k < events.len() && events[i]
            == SuperviseEvent::DeadlineElapsed && events[j] == SuperviseEvent::KillDelivered
            && events[k] == SuperviseEvent::Reaped
}

/// The kill was delivered and the process was then reclaimed, in this
/// order, somewhere in the observed events.
pub open spec fn kill_then_reap(events: Seq<SuperviseEvent>) -> bool {
    exists|j: int, k: int|
        0 <= j && j < k && k < events.len() && events[j] == SuperviseEvent::KillDelivered
            && events[k] == SuperviseEvent::Reaped
}

/// The process was reclaimed somewhere in the observed events.
pub open spec fn reap_present(events: Seq<SuperviseEvent>) -> bool {
    exists|k: int| 0 <= k < events.len() && events[k] == SuperviseEvent::Reaped
}

proof fn lemma_timeout_trace_general(
    state: SuperviseState,
    events: Seq<SuperviseEvent>,
    success_exit_code: i32,
    timeout_secs: u32,
)
    requires
        run_machine(state, events, success_exit_code, timeout_secs) == Ok::<
            SuperviseState,
            RunError,
        >(SuperviseState::Done(TestResult::Timeout)),
    ensures
        match state {
            SuperviseState::Waiting => ordered_kill_protocol(events),
            SuperviseState::Killing => kill_then_reap(events),
            SuperviseState::Reaping => reap_present(events),
            SuperviseState::Done(result) => result == TestResult::Timeout,
        },
    decreases events.len(),
{
    if events.len() == 0 {
    } else {
        let tail = events.drop_first();
        match state {
            SuperviseState::Waiting => {
                match events[0] {
                    SuperviseEvent::ExitedWithin { status_code } => {
                        let code = status_code->0;
                        let result = spec_classify_exit_code(code, success_exit_code);
                        lemma_done_is_terminal(result, tail, success_exit_code, timeout_secs);
                    },
                    SuperviseEvent::DeadlineElapsed => {
                        lemma_timeout_trace_general(
                            SuperviseState::Killing,
                            tail,
                            success_exit_code,
                            timeout_secs,
                        );
                        let (j, k): (int, int) = choose|j: int, k: int|
                            0 <= j && j < k && k < tail.len() && tail[j]
                                == SuperviseEvent::KillDelivered && tail[k]
                                == SuperviseEvent::Reaped;
                        assert(events[0] == SuperviseEvent::DeadlineElapsed && events[j + 1]
                            == SuperviseEvent::KillDelivered && events[k + 1]
                            == SuperviseEvent::Reaped);
                    },
                    _ => {
                        lemma_timeout_trace_general(
                            state,
                            tail,
                            success_exit_code,
                            timeout_secs,
                        );
                        let (i, j, k): (int, int, int) = choose|i: int, j: int, k: int|
                            0 <= i && i < j && j < k && k < tail.len() && tail[i]
                                == SuperviseEvent::DeadlineElapsed && tail[j]
                                == SuperviseEvent::KillDelivered && tail[k]
                                == SuperviseEvent::Reaped;
                        assert(events[i + 1] == SuperviseEvent::DeadlineElapsed && events[j + 1]
                            == SuperviseEvent::KillDelivered && events[k + 1]
                            == SuperviseEvent::Reaped);
                    },
                }
            },
            SuperviseState::Killing => {
                match events[0] {
                    SuperviseEvent::KillDelivered => {
                        lemma_timeout_trace_general(
                            SuperviseState::Reaping,
                            tail,
                            success_exit_code,
                            timeout_secs,
                        );
                        let k: int = choose|k: int|
                            0 <= k < tail.len() && tail[k] == SuperviseEvent::Reaped;
                        assert(events[0] == SuperviseEvent::KillDelivered && events[k + 1]
                            == SuperviseEvent::Reaped);
                    },
                    _ => {
                        lemma_timeout_trace_general(
                            state,
                            tail,
                            success_exit_code,
                            timeout_secs,
                        );
                        let (j, k): (int, int) = choose|j: int, k: int|
                            0 <= j && j < k && k < tail.len() && tail[j]
                                == SuperviseEvent::KillDelivered && tail[k]
                                == SuperviseEvent::Reaped;
                        assert(events[j + 1] == SuperviseEvent::KillDelivered && events[k + 1]
                            == SuperviseEvent::Reaped);
                    },
                }
            },
            SuperviseState::Reaping => {
                match events[0] {
                    SuperviseEvent::Reaped => {
                        assert(events[0] == SuperviseEvent::Reaped);
                    },
                    _ => {
                        lemma_timeout_trace_general(
                            state,
                            tail,
                            success_exit_code,
                            timeout_secs,
                        );
                        let k: int = choose|k: int|
                            0 <= k < tail.len() && tail[k] == SuperviseEvent::Reaped;
                        assert(events[k + 1] == SuperviseEvent::Reaped);
                    },
                }
            },
            SuperviseState::Done(result) => {
                lemma_done_is_terminal(result, events, success_exit_code, timeout_secs);
            },
        }
    }
}

/// Timeout-ordering law: a supervised run is reported as a timeout only
/// when the driver observed, in this order, the deadline elapsing, the
/// delivery of the termination signal, and the reclaim of the process.
/// Reporting a timeout before the process was killed and reclaimed is
/// impossible.
pub proof fn lemma_timeout_only_after_kill_and_reap(
    events: Seq<SuperviseEvent>,
    success_exit_code: i32,
    timeout_secs: u32,
)
    requires
        run_machine(SuperviseState::Waiting, events, success_exit_code, timeout_secs) == Ok::<
            SuperviseState,
            RunError,
        >(SuperviseState::Done(TestResult::Timeout)),
    ensures
        ordered_kill_protocol(events),
{
    lemma_timeout_trace_general(SuperviseState::Waiting, events, success_exit_code, timeout_secs);
}

/// Whether a kernel binary path names a test executable: its parent
/// directory is called `deps`, or starts with `rustdoctest`.
pub open spec fn spec_is_test_executable(p: Seq<char>) -> bool {
    match paths::spec_parent_dir(p) {
        Some(parent) => {
            let name = paths::spec_base_name(parent);
            name == "deps"@ || template::match_at(name, "rustdoctest"@, 0)
        },
        None => false,
    }
}

/// Decides whether the kernel binary at the given path is a test
/// executable, which selects the supervised test mode.
pub fn is_test_executable(path: &String) -> (r: bool)
    ensures
        r == spec_is_test_executable(path@),
{
    match paths::parent_dir(path.as_str()) {
        None => false,
        Some(parent) => {
            let name = paths::base_name(parent.as_str());
            let deps = "deps".to_owned();
            if name == deps {
                true
            } else {
                let pat = "rustdoctest";
                let plen = pat.unicode_len();
                let nlen = name.as_str().unicode_len();
                if plen <= nlen {
                    template::matches_at(name.as_str(), pat, 0)
                } else {
                    false
                }
            }
        },
    }
}

/// Launches the assembled image under the emulator: fire-and-forget in
/// normal mode, supervised with a deadline in test mode. The command line
/// and every supervision decision come from here; the driver program
/// performs the process operations.
pub struct Runner {
    pub config: LimageConfig,
    pub is_test: bool,
}

impl Runner {
    pub fn new(config: LimageConfig, is_test: bool) -> (r: Runner)
        ensures
            r.config == config,
            r.is_test == is_test,
    {
        Runner { config, is_test }
    }

    /// The full emulator invocation of this run: the configured command
    /// over the configured image path, in this runner's mode.
    pub fn command_line(&self) -> (cmd: Vec<String>)
        ensures
            cmd.deep_view() == spec_qemu_command(
                self.config@,
                self.config@.build.image_path,
                self.is_test,
            ),
    {
        self.config.get_qemu_command(&self.config.build.image_path, self.is_test)
    }
}

} // verus!
