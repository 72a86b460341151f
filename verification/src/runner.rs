//! The first supervisor: one clone into fresh namespaces on a fixed stack,
//! then a wait. The clone and the wait are platform calls the launching
//! binary makes; here stand the plan handed to the clone and the decoding of
//! what the wait returns.

use crate::river::RiverResult;
use crate::sys::linux::{
    cpu_ms_of_rusage, namespace_plan, rusage_bounded, spec_exit_code, spec_signal, NamespaceSet,
};
use crate::utils::Rusage;
use vstd::prelude::*;

verus! {

/// The fixed size of the clone stack: one MiB.
pub const STACK_SIZE: usize = 1024 * 1024;

/// The clone the supervisor performs: a fresh fixed-size stack and the
/// namespaces to unshare.
#[derive(Clone, Copy, Debug, PartialEq, Eq, Structural)]
pub struct ClonePlan {
    pub stack_size: usize,
    pub namespaces: NamespaceSet,
}

/// The supervisor of one run.
pub struct Runner {}

impl Runner {
    /// The clone of one run: a one-MiB stack, every namespace unshared —
    /// this supervisor has no option to share the host network.
    pub fn clone_plan() -> (r: ClonePlan)
        ensures
            r.stack_size == STACK_SIZE,
            r.namespaces.user && r.namespaces.uts && r.namespaces.net && r.namespaces.mount
                && r.namespaces.ipc && r.namespaces.cgroup && r.namespaces.pid,
    {
        ClonePlan { stack_size: STACK_SIZE, namespaces: namespace_plan(false) }
    }

    /// Assembles the host-facing result of one supervised run: the wall
    /// clock the supervisor measured around the whole run, the guest's peak
    /// memory from the usage record, and exit code and signal decoded from
    /// the wait status word.
    pub fn result_of_wait(raw: i32, ru: &Rusage, wall_ms: i32) -> (r: RiverResult)
        requires
            rusage_bounded(*ru),
            0 <= wall_ms,
            ru.maxrss <= i32::MAX,
        ensures
            r.time_used == wall_ms,
            r.memory_used == ru.maxrss,
            r.exit_code == spec_exit_code(raw),
            r.signal == spec_signal(raw),
    {
        RiverResult {
            time_used: wall_ms,
            memory_used: ru.maxrss as i32,
            exit_code: crate::sys::linux::exit_code_of_status(raw),
            signal: crate::sys::linux::signal_of_status(raw),
        }
    }
}

/// What one wait on the guest returned: CPU time in milliseconds and peak
/// memory in KiB from the usage record, exit code and signal decoded from
/// the raw status word.
#[derive(Clone, Copy, Debug, PartialEq, Eq, Structural)]
pub struct RunnerStatus {
    pub time_used: i64,
    pub memory_used: i64,
    pub exit_code: i32,
    pub status: i32,
    pub signal: i32,
}

impl RunnerStatus {
    /// Decodes one wait: the reported time is the guest's CPU time (user
    /// plus system, in milliseconds), the memory its peak resident set, and
    /// exit code and signal come from the status word. Both counters are
    /// non-negative.
    pub fn from_wait(raw: i32, ru: &Rusage) -> (r: RunnerStatus)
        requires
            rusage_bounded(*ru),
        ensures
            r.time_used == cpu_ms_of_rusage(*ru),
            r.time_used >= 0,
            r.memory_used == ru.maxrss,
            r.memory_used >= 0,
            r.exit_code == spec_exit_code(raw),
            r.status == raw,
            r.signal == spec_signal(raw),
    {
        let time_used: i64 = (ru.utime_sec + ru.stime_sec) * 1000 + (ru.utime_usec
            + ru.stime_usec) / 1000;
        RunnerStatus {
            time_used,
            memory_used: ru.maxrss,
            exit_code: crate::sys::linux::exit_code_of_status(raw),
            status: raw,
            signal: crate::sys::linux::signal_of_status(raw),
        }
    }
}

} // verus!
