//! The job-object supervisor: the suspended-process creation plan, the job
//! limits attached before the first instruction, the wait decision, and the
//! accounting read from the process times. The platform calls themselves are
//! made by the launching binary from these plans.

pub mod utils;

use crate::error::Error;
use crate::opts::Opts;
use crate::status::Status;
use crate::sys::SandboxImpl;
use crate::text::join_sp;
use vstd::prelude::*;

verus! {

/// The wait value that means "no timeout".
pub const INFINITE: u32 = 0xFFFF_FFFF;

/// The signal code synthesized for a deadline kill.
pub const DEADLINE_SIGNAL: i32 = 9;

/// How the guest process is created: the executable path, the joined
/// argument tail as one command line, handle inheritance exactly when a
/// stream is redirected, and always suspended so that limits attach before
/// the first instruction.
#[derive(Clone, Debug)]
pub struct CreationPlan {
    pub app: String,
    pub command_line: Option<String>,
    pub inherit_handles: bool,
    pub create_suspended: bool,
}

/// The limits attached to the job object before the process is resumed.
#[derive(Clone, Copy, Debug, PartialEq, Eq, Structural)]
pub struct JobLimits {
    pub idle_priority: bool,
    pub process_time_limit_100ns: Option<u64>,
    pub working_set_bytes: Option<u64>,
}

/// The job limits of one run: idle priority always; the per-process and
/// per-job user-time ceiling in 100 ns units when a CPU limit is set; a
/// best-effort working-set cap when a memory limit is set.
pub fn job_limit_plan(cpu_time_limit: Option<u32>, memory_limit: Option<u32>) -> (r: JobLimits)
    ensures
        r.idle_priority,
        cpu_time_limit matches Some(l) ==> r.process_time_limit_100ns == Some((l * 10000) as u64),
        cpu_time_limit is None ==> r.process_time_limit_100ns is None,
        memory_limit matches Some(l) ==> r.working_set_bytes == Some((l * 1024) as u64),
        memory_limit is None ==> r.working_set_bytes is None,
{
    let process_time_limit_100ns = match cpu_time_limit {
        Some(l) => Some((l as u64) * 10000),
        None => None,
    };
    let working_set_bytes = match memory_limit {
        Some(l) => Some((l as u64) * 1024),
        None => None,
    };
    JobLimits { idle_priority: true, process_time_limit_100ns, working_set_bytes }
}

/// The timeout handed to the single-object wait: the wall-clock limit, or
/// infinite when none is set.
pub fn wait_timeout_value(time_limit: Option<u32>) -> (r: u32)
    ensures
        time_limit matches Some(t) ==> r == t,
        time_limit is None ==> r == INFINITE,
{
    match time_limit {
        Some(t) => t,
        None => INFINITE,
    }
}

/// How the single-object wait came back.
#[derive(Clone, Copy, Debug, PartialEq, Eq, Structural)]
pub enum WaitOutcome {
    Signaled,
    TimedOut,
    Failed,
}

/// What the supervisor does next: read the counters; terminate the process,
/// reap it, then read the counters; or report the wait failure.
#[derive(Clone, Copy, Debug, PartialEq, Eq, Structural)]
pub enum WaitAction {
    Collect,
    TerminateAndReap,
    Fail,
}

/// The supervisor's response to each wait outcome: a signaled process is
/// collected, a timeout is resolved by a forced termination and a blocking
/// reap, a failed wait is an error.
pub fn wait_decision(o: WaitOutcome) -> (r: WaitAction)
    ensures
        o == WaitOutcome::Signaled ==> r == WaitAction::Collect,
        o == WaitOutcome::TimedOut ==> r == WaitAction::TerminateAndReap,
        o == WaitOutcome::Failed ==> r == WaitAction::Fail,
{
    match o {
        WaitOutcome::Signaled => WaitAction::Collect,
        WaitOutcome::TimedOut => WaitAction::TerminateAndReap,
        WaitOutcome::Failed => WaitAction::Fail,
    }
}

/// The synthesized signal: the deadline code for a forced termination,
/// zero otherwise.
pub fn synthesized_signal(timed_out: bool) -> (r: i32)
    ensures
        r == if timed_out {
            DEADLINE_SIGNAL as int
        } else {
            0
        },
{
    if timed_out {
        DEADLINE_SIGNAL
    } else {
        0
    }
}

/// The result record read from the process counters, all times in 100 ns
/// units: wall time from creation to exit, CPU time from kernel plus user
/// time, peak memory from the peak working set; the signal synthesized from
/// the deadline kill. All counters are non-negative.
pub fn wait_accounting(
    creation_100ns: u64,
    exit_100ns: u64,
    kernel_100ns: u64,
    user_100ns: u64,
    peak_working_set_bytes: u64,
    timed_out: bool,
) -> (r: Status)
    requires
        creation_100ns <= exit_100ns,
        kernel_100ns + user_100ns <= u64::MAX,
    ensures
        r.time_used == (exit_100ns - creation_100ns) / 10000,
        r.cpu_time_used == (kernel_100ns + user_100ns) / 10000,
        r.memory_used == peak_working_set_bytes / 1024,
        r.exit_code == 0,
        r.status == 0,
        r.signal == if timed_out {
            DEADLINE_SIGNAL as int
        } else {
            0
        },
{
    Status {
        time_used: (exit_100ns - creation_100ns) / 10000,
        cpu_time_used: (kernel_100ns + user_100ns) / 10000,
        memory_used: peak_working_set_bytes / 1024,
        exit_code: 0,
        status: 0,
        signal: synthesized_signal(timed_out),
    }
}

/// The redirect handles of one run, one per standard stream.
#[derive(Clone, Debug)]
pub struct RedirectHandles {
    pub stdin_handle: Option<crate::sys::windows::utils::FilePlan>,
    pub stdout_handle: Option<crate::sys::windows::utils::FilePlan>,
    pub stderr_handle: Option<crate::sys::windows::utils::FilePlan>,
}

// ---------------------------------------------------------------------------
// The job's state machine.
// ---------------------------------------------------------------------------
/// Where the guest job stands.
#[derive(Clone, Copy, Debug, PartialEq, Eq, Structural)]
pub enum JobState {
    Created,
    Limited,
    Running,
    FailClean,
    SignaledOk,
    TimeoutKill,
    WaitFail,
}

/// What happened to the guest job.
#[derive(Clone, Copy, Debug, PartialEq, Eq, Structural)]
pub enum JobEvent {
    LimitsApplied,
    SetupFailed,
    Resumed,
    WaitSignaled,
    WaitTimedOut,
    WaitFailed,
}

/// The guest job's transitions: created suspended, it is limited, then
/// resumed, then waited on; a setup failure before running ends it cleanly;
/// the wait ends in collection, a deadline kill, or a wait failure. Any
/// other pairing leaves the state unchanged.
pub open spec fn job_step_spec(s: JobState, e: JobEvent) -> JobState {
    match (s, e) {
        (JobState::Created, JobEvent::LimitsApplied) => JobState::Limited,
        (JobState::Created, JobEvent::SetupFailed) => JobState::FailClean,
        (JobState::Limited, JobEvent::Resumed) => JobState::Running,
        (JobState::Limited, JobEvent::SetupFailed) => JobState::FailClean,
        (JobState::Running, JobEvent::WaitSignaled) => JobState::SignaledOk,
        (JobState::Running, JobEvent::WaitTimedOut) => JobState::TimeoutKill,
        (JobState::Running, JobEvent::WaitFailed) => JobState::WaitFail,
        _ => s,
    }
}

/// Takes the guest job one step.
pub fn job_step(s: JobState, e: JobEvent) -> (r: JobState)
    ensures
        r == job_step_spec(s, e),
{
    match (s, e) {
        (JobState::Created, JobEvent::LimitsApplied) => JobState::Limited,
        (JobState::Created, JobEvent::SetupFailed) => JobState::FailClean,
        (JobState::Limited, JobEvent::Resumed) => JobState::Running,
        (JobState::Limited, JobEvent::SetupFailed) => JobState::FailClean,
        (JobState::Running, JobEvent::WaitSignaled) => JobState::SignaledOk,
        (JobState::Running, JobEvent::WaitTimedOut) => JobState::TimeoutKill,
        (JobState::Running, JobEvent::WaitFailed) => JobState::WaitFail,
        (s2, _) => s2,
    }
}

/// The four terminal states absorb every further event.
pub proof fn lemma_terminal_states_absorb(s: JobState, e: JobEvent)
    requires
        s == JobState::FailClean || s == JobState::SignaledOk || s == JobState::TimeoutKill || s
            == JobState::WaitFail,
    ensures
        job_step_spec(s, e) == s,
{
}

// ---------------------------------------------------------------------------
// The supervisor.
// ---------------------------------------------------------------------------
/// The job-object supervisor: what one run is configured with.
#[derive(Debug)]
pub struct Sandbox {
    pub inner_args: Vec<String>,
    pub time_limit: Option<u32>,
    pub cpu_time_limit: Option<u32>,
    pub memory_limit: Option<u32>,
    pub input: Option<String>,
    pub output: Option<String>,
    pub error: Option<String>,
}

impl SandboxImpl for Sandbox {
    open spec fn wf_from(&self, opts: Opts) -> bool {
        &&& self.inner_args == opts.command
        &&& self.time_limit == opts.time_limit
        &&& self.cpu_time_limit == opts.cpu_time_limit
        &&& self.memory_limit == opts.memory_limit
        &&& self.input == opts.input
        &&& self.output == opts.output
        &&& self.error == opts.error
    }

    fn with_opts(opts: Opts) -> (r: Self) {
        Sandbox {
            inner_args: opts.command,
            time_limit: opts.time_limit,
            cpu_time_limit: opts.cpu_time_limit,
            memory_limit: opts.memory_limit,
            input: opts.input,
            output: opts.output,
            error: opts.error,
        }
    }
}

impl Sandbox {
    /// How this run's process is created: the first argument is the
    /// executable, the remaining ones joined with single spaces form the
    /// command line (none when there are no further arguments), handles are
    /// inherited exactly when a stream is redirected, and the process starts
    /// suspended. Fails exactly when the command is empty.
    pub fn creation_plan(&self) -> (r: Result<CreationPlan, Error>)
        ensures
            r is Ok <==> self.inner_args@.len() > 0,
            r is Err ==> (r matches Err(e) && e is Config),
            r matches Ok(p) ==> ({
                &&& p.app@ == self.inner_args@[0]@
                &&& self.inner_args@.len() <= 1 ==> p.command_line is None
                &&& self.inner_args@.len() > 1 ==> (p.command_line matches Some(c) && c@ == join_sp(
                    self.inner_args.deep_view().skip(1),
                ))
                &&& p.inherit_handles == (self.input is Some || self.output is Some
                    || self.error is Some)
                &&& p.create_suspended
            }),
    {
        if self.inner_args.len() == 0 {
            return Err(Error::Config(String::from_str("empty command")));
        }
        let app = self.inner_args[0].clone();
        let command_line = if self.inner_args.len() > 1 {
            let n = self.inner_args.len();
            let mut tail: Vec<String> = Vec::new();
            let mut i: usize = 1;
            while i < n
                invariant
                    n == self.inner_args@.len(),
                    1 <= i <= n,
                    tail@.len() == i - 1,
                    forall|j: int|
                        0 <= j < i - 1 ==> #[trigger] tail@[j]@ == self.inner_args@[j + 1]@,
                decreases n - i,
            {
                tail.push(self.inner_args[i].clone());
                i += 1;
            }
            proof {
                assert forall|j: int| 0 <= j < n - 1 implies tail.deep_view()[j]
                    == self.inner_args.deep_view().skip(1)[j] by {
                    assert(tail@[j]@ == self.inner_args@[j + 1]@);
                }
                assert(tail.deep_view() =~= self.inner_args.deep_view().skip(1));
            }
            Some(crate::text::join_spaces(&tail))
        } else {
            None
        };
        let inherit_handles = self.input.is_some() || self.output.is_some()
            || self.error.is_some();
        Ok(CreationPlan { app, command_line, inherit_handles, create_suspended: true })
    }

    /// The handles handed to the created process: the input stream opened
    /// for reading an existing file, the output and error streams created or
    /// truncated for writing, each inheritable; an unredirected stream gets
    /// no handle and is inherited.
    pub fn redirect_fd(&self) -> (r: RedirectHandles)
        ensures
            self.input matches Some(p) ==> (r.stdin_handle matches Some(f) && f.path@ == p@
                && !f.write_access && !f.create_always && f.inheritable),
            self.input is None ==> r.stdin_handle is None,
            self.output matches Some(p) ==> (r.stdout_handle matches Some(f) && f.path@ == p@
                && f.write_access && f.create_always && f.inheritable),
            self.output is None ==> r.stdout_handle is None,
            self.error matches Some(p) ==> (r.stderr_handle matches Some(f) && f.path@ == p@
                && f.write_access && f.create_always && f.inheritable),
            self.error is None ==> r.stderr_handle is None,
    {
        let stdin_handle = match &self.input {
            Some(p) => Some(crate::sys::windows::utils::handle_from_file(p.as_str(), 'r')),
            None => None,
        };
        let stdout_handle = match &self.output {
            Some(p) => Some(crate::sys::windows::utils::handle_from_file(p.as_str(), 'w')),
            None => None,
        };
        let stderr_handle = match &self.error {
            Some(p) => Some(crate::sys::windows::utils::handle_from_file(p.as_str(), 'w')),
            None => None,
        };
        RedirectHandles { stdin_handle, stdout_handle, stderr_handle }
    }

    /// The job limits of this run.
    pub fn limit_plan(&self) -> (r: JobLimits)
        ensures
            r.idle_priority,
            self.cpu_time_limit matches Some(l) ==> r.process_time_limit_100ns == Some((l * 10000) as u64),
            self.cpu_time_limit is None ==> r.process_time_limit_100ns is None,
            self.memory_limit matches Some(l) ==> r.working_set_bytes == Some((l * 1024) as u64),
            self.memory_limit is None ==> r.working_set_bytes is None,
    {
        job_limit_plan(self.cpu_time_limit, self.memory_limit)
    }

    /// The wait timeout of this run.
    pub fn wait_timeout(&self) -> (r: u32)
        ensures
            self.time_limit matches Some(t) ==> r == t,
            self.time_limit is None ==> r == INFINITE,
    {
        wait_timeout_value(self.time_limit)
    }
}

} // verus!
