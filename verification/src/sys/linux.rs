//! The kernel-namespace supervisor: the resource ceilings, stream
//! redirections and namespace set it imposes before the guest's first
//! instruction, stated as plans; and the decoding of the wait status and
//! usage counters it performs afterwards.

pub mod seccomp;
pub mod utils;

use crate::error::Error;
use crate::opts::Opts;
use crate::status::Status;
use crate::sys::SandboxImpl;
use crate::utils::Rusage;
use vstd::prelude::*;

verus! {

// ---------------------------------------------------------------------------
// Decoding the kernel's wait status word. These mirror the C library's
// classification macros: the low seven bits hold the killing signal (0 for a
// normal exit, 0x7f for a stop), the next byte the exit code or stop signal.
// ---------------------------------------------------------------------------
/// The guest exited normally: the low seven bits are clear.
pub open spec fn spec_wifexited(s: i32) -> bool {
    s & 0x7f == 0
}

/// The exit code of a normal exit.
pub open spec fn spec_wexitstatus(s: i32) -> i32 {
    (s >> 8) & 0xff
}

/// The guest was killed by a signal: the low seven bits hold a signal
/// number, which excludes 0 (normal exit) and 0x7f (stopped).
pub open spec fn spec_wifsignaled(s: i32) -> bool {
    1 <= (s & 0x7f) && (s & 0x7f) <= 126
}

/// The killing signal.
pub open spec fn spec_wtermsig(s: i32) -> i32 {
    s & 0x7f
}

/// The guest is stopped: the low byte is exactly 0x7f.
pub open spec fn spec_wifstopped(s: i32) -> bool {
    s & 0xff == 0x7f
}

/// The stopping signal.
pub open spec fn spec_wstopsig(s: i32) -> i32 {
    (s >> 8) & 0xff
}

/// The exit code the supervisor reports: the code of a normal exit, else 0.
pub open spec fn spec_exit_code(s: i32) -> i32 {
    if spec_wifexited(s) {
        spec_wexitstatus(s)
    } else {
        0
    }
}

/// The signal the supervisor reports: the killing signal; else the stopping
/// signal; else 0.
pub open spec fn spec_signal(s: i32) -> i32 {
    if spec_wifsignaled(s) {
        spec_wtermsig(s)
    } else if spec_wifstopped(s) {
        spec_wstopsig(s)
    } else {
        0
    }
}

/// Whether the status word reports a normal exit.
pub fn wifexited(s: i32) -> (r: bool)
    ensures
        r == spec_wifexited(s),
{
    s & 0x7f == 0
}

/// The exit code of a normal exit.
pub fn wexitstatus(s: i32) -> (r: i32)
    ensures
        r == spec_wexitstatus(s),
{
    (s >> 8) & 0xff
}

/// Whether the status word reports a kill by signal.
pub fn wifsignaled(s: i32) -> (r: bool)
    ensures
        r == spec_wifsignaled(s),
{
    let t = s & 0x7f;
    1 <= t && t <= 126
}

/// The killing signal.
pub fn wtermsig(s: i32) -> (r: i32)
    ensures
        r == spec_wtermsig(s),
{
    s & 0x7f
}

/// Whether the status word reports a stop.
pub fn wifstopped(s: i32) -> (r: bool)
    ensures
        r == spec_wifstopped(s),
{
    s & 0xff == 0x7f
}

/// The stopping signal.
pub fn wstopsig(s: i32) -> (r: i32)
    ensures
        r == spec_wstopsig(s),
{
    (s >> 8) & 0xff
}

/// The reported exit code.
pub fn exit_code_of_status(s: i32) -> (r: i32)
    ensures
        r == spec_exit_code(s),
{
    if wifexited(s) {
        wexitstatus(s)
    } else {
        0
    }
}

/// The reported signal.
pub fn signal_of_status(s: i32) -> (r: i32)
    ensures
        r == spec_signal(s),
{
    if wifsignaled(s) {
        wtermsig(s)
    } else if wifstopped(s) {
        wstopsig(s)
    } else {
        0
    }
}

/// For every status word, a nonzero exit code and a nonzero signal never
/// stand together. A clean normal exit reports both zero; an abnormal
/// termination (a kill, or a normal exit with a nonzero code) reports
/// exactly one of them nonzero.
pub proof fn lemma_exit_signal_exclusive(s: i32)
    ensures
        spec_exit_code(s) != 0 ==> spec_signal(s) == 0,
        spec_signal(s) != 0 ==> spec_exit_code(s) == 0,
        spec_wifexited(s) && spec_wexitstatus(s) == 0 ==> spec_exit_code(s) == 0 && spec_signal(s)
            == 0,
        spec_wifsignaled(s) ==> spec_signal(s) != 0 && spec_exit_code(s) == 0,
        spec_wifexited(s) && spec_wexitstatus(s) != 0 ==> spec_exit_code(s) != 0 && spec_signal(s)
            == 0,
{
    assert((s & 0xff == 0x7f) ==> (s & 0x7f == 0x7f)) by (bit_vector);
    assert(0 <= s & 0x7f) by (bit_vector);
}

// ---------------------------------------------------------------------------
// Resource ceilings.
// ---------------------------------------------------------------------------
/// Whether a configured limit is applied: present and above zero; zero or
/// absent means "uncapped by this engine".
pub open spec fn active_limit(o: Option<u32>) -> bool {
    match o {
        Some(l) => l > 0,
        None => false,
    }
}

/// Seconds handed to the kernel CPU ceiling for a limit of `ms`
/// milliseconds: the count rounded up to whole seconds, plus one extra
/// second when the remainder exceeds 800 ms, so that a guest finishing just
/// under the limit is not killed by rounding.
pub open spec fn cpu_rlimit_secs_spec(ms: u32) -> int {
    let q = ms as int / 1000;
    let rem = ms as int % 1000;
    let ceil = if rem == 0 {
        q
    } else {
        q + 1
    };
    if rem > 800 {
        ceil + 1
    } else {
        ceil
    }
}

/// Seconds for the kernel CPU resource limit derived from a millisecond
/// limit.
pub fn cpu_rlimit_seconds(ms: u32) -> (r: u64)
    ensures
        r == cpu_rlimit_secs_spec(ms),
{
    let q: u64 = (ms / 1000) as u64;
    let rem: u32 = ms % 1000;
    let ceil: u64 = if rem == 0 {
        q
    } else {
        q + 1
    };
    if rem > 800 {
        ceil + 1
    } else {
        ceil
    }
}

/// The CPU ceiling handed to the kernel covers the configured limit and
/// exceeds it by less than 1.2 seconds: the kernel never lets the guest run
/// past the ceiling, so the guest observes at most the limit plus that
/// rounding margin (the kernel's own scheduler tick lies outside this
/// model, as does the kernel itself).
pub proof fn lemma_cpu_limit_enforcement(ms: u32)
    requires
        ms >= 1,
    ensures
        ms <= 1000 * cpu_rlimit_secs_spec(ms),
        1000 * cpu_rlimit_secs_spec(ms) <= ms + 1199,
{
    vstd::arithmetic::div_mod::lemma_fundamental_div_mod(ms as int, 1000);
}

/// Bytes handed to the kernel address-space and stack ceilings for a limit
/// of `kib` KiB: twice the configured amount, since the kernel accounts
/// address space, which must exceed the resident working set.
pub open spec fn memory_rlimit_bytes_spec(kib: u32) -> int {
    kib as int * 1024 * 2
}

/// Bytes for the kernel address-space and stack limits.
pub fn memory_rlimit_bytes(kib: u32) -> (r: u64)
    ensures
        r == memory_rlimit_bytes_spec(kib),
{
    (kib as u64) * 1024 * 2
}

/// One kernel resource the guest is capped on.
#[derive(Clone, Copy, Debug, PartialEq, Eq, Structural)]
pub enum RlimitResource {
    CpuSeconds,
    AddressSpace,
    Stack,
    FileSize,
    ProcessCount,
}

/// One ceiling to install: the resource and its soft and hard values.
#[derive(Clone, Copy, Debug, PartialEq, Eq, Structural)]
pub struct RlimitSetting {
    pub resource: RlimitResource,
    pub soft: u64,
    pub hard: u64,
}

/// The ceilings the guest candidate installs, in order: CPU seconds, then
/// address space and stack, then file size, then process count — each only
/// when its limit is configured and above zero.
pub open spec fn rlimit_plan_spec(sb: Sandbox) -> Seq<RlimitSetting> {
    let cpu = if active_limit(sb.cpu_time_limit) {
        seq![
            RlimitSetting {
                resource: RlimitResource::CpuSeconds,
                soft: cpu_rlimit_secs_spec(sb.cpu_time_limit->Some_0) as u64,
                hard: cpu_rlimit_secs_spec(sb.cpu_time_limit->Some_0) as u64,
            },
        ]
    } else {
        Seq::empty()
    };
    let mem = if active_limit(sb.memory_limit) {
        seq![
            RlimitSetting {
                resource: RlimitResource::AddressSpace,
                soft: memory_rlimit_bytes_spec(sb.memory_limit->Some_0) as u64,
                hard: memory_rlimit_bytes_spec(sb.memory_limit->Some_0) as u64,
            },
            RlimitSetting {
                resource: RlimitResource::Stack,
                soft: memory_rlimit_bytes_spec(sb.memory_limit->Some_0) as u64,
                hard: memory_rlimit_bytes_spec(sb.memory_limit->Some_0) as u64,
            },
        ]
    } else {
        Seq::empty()
    };
    let fsz = if active_limit(sb.file_size_limit) {
        seq![
            RlimitSetting {
                resource: RlimitResource::FileSize,
                soft: sb.file_size_limit->Some_0 as u64,
                hard: sb.file_size_limit->Some_0 as u64,
            },
        ]
    } else {
        Seq::empty()
    };
    let pid = if active_limit(sb.pids_limit) {
        seq![
            RlimitSetting {
                resource: RlimitResource::ProcessCount,
                soft: sb.pids_limit->Some_0 as u64,
                hard: sb.pids_limit->Some_0 as u64,
            },
        ]
    } else {
        Seq::empty()
    };
    cpu + mem + fsz + pid
}

// ---------------------------------------------------------------------------
// Stream redirections.
// ---------------------------------------------------------------------------
/// How a redirect file is opened: stdin read-only, stdout and stderr
/// created or truncated.
#[derive(Clone, Copy, Debug, PartialEq, Eq, Structural)]
pub enum OpenKind {
    ReadOnly,
    CreateTruncate,
}

/// One stream redirection the guest candidate performs before exec.
#[derive(Clone, Debug)]
pub struct Redirect {
    pub path: String,
    pub kind: OpenKind,
    pub mode: u32,
    pub target_fd: i32,
}

/// One redirect as planned: the given path, open kind and target
/// descriptor, with creation mode 0o644.
pub open spec fn redirect_matches(r: Redirect, path: Seq<char>, kind: OpenKind, fd: i32) -> bool {
    r.path@ == path && r.kind == kind && r.mode == 0o644 && r.target_fd == fd
}

/// The redirections of a supervisor, in stream order: stdin, stdout,
/// stderr, each only when configured.
pub open spec fn redirect_plan_ok(sb: Sandbox, rs: Seq<Redirect>) -> bool {
    let n_in: int = if sb.input is Some {
        1
    } else {
        0
    };
    let n_out: int = if sb.output is Some {
        1
    } else {
        0
    };
    let n_err: int = if sb.error is Some {
        1
    } else {
        0
    };
    &&& rs.len() == n_in + n_out + n_err
    &&& (sb.input matches Some(p) ==> redirect_matches(rs[0], p@, OpenKind::ReadOnly, 0))
    &&& (sb.output matches Some(p) ==> redirect_matches(rs[n_in], p@, OpenKind::CreateTruncate, 1))
    &&& (sb.error matches Some(p) ==> redirect_matches(
        rs[n_in + n_out],
        p@,
        OpenKind::CreateTruncate,
        2,
    ))
}

// ---------------------------------------------------------------------------
// Namespaces.
// ---------------------------------------------------------------------------
/// Which namespaces the clone unshares. A fresh user namespace lets an
/// unprivileged caller create the others.
#[derive(Clone, Copy, Debug, PartialEq, Eq, Structural)]
pub struct NamespaceSet {
    pub user: bool,
    pub uts: bool,
    pub net: bool,
    pub mount: bool,
    pub ipc: bool,
    pub cgroup: bool,
    pub pid: bool,
}

/// The namespace set of one run: everything fresh, the network namespace
/// only when the host network is not shared.
pub fn namespace_plan(network_enabled: bool) -> (r: NamespaceSet)
    ensures
        r.user && r.uts && r.mount && r.ipc && r.cgroup && r.pid,
        r.net == !network_enabled,
{
    NamespaceSet {
        user: true,
        uts: true,
        net: !network_enabled,
        mount: true,
        ipc: true,
        cgroup: true,
        pid: true,
    }
}

// ---------------------------------------------------------------------------
// The supervisor.
// ---------------------------------------------------------------------------
/// The namespace supervisor: what one run is configured with.
#[derive(Debug)]
pub struct Sandbox {
    pub inner_args: Vec<String>,
    pub time_limit: Option<u32>,
    pub cpu_time_limit: Option<u32>,
    pub memory_limit: Option<u32>,
    pub input: Option<String>,
    pub output: Option<String>,
    pub error: Option<String>,
    pub file_size_limit: Option<u32>,
    pub pids_limit: Option<u32>,
    pub workdir: Option<String>,
    pub network_enabled: bool,
}

impl SandboxImpl for Sandbox {
    open spec fn wf_from(&self, opts: Opts) -> bool {
        &&& self.inner_args == opts.command
        &&& self.time_limit == opts.time_limit
        &&& self.cpu_time_limit == opts.cpu_time_limit
        &&& self.memory_limit == opts.memory_limit
        &&& self.input == opts.input
        &&& self.output == opts.output
        &&& self.error == opts.error
        &&& self.file_size_limit == opts.file_size_limit
        &&& self.pids_limit == opts.pids_limit
        &&& self.workdir == opts.workdir
        &&& self.network_enabled == opts.network_enabled
    }

    fn with_opts(opts: Opts) -> (r: Self) {
        Sandbox {
            inner_args: opts.command,
            time_limit: opts.time_limit,
            cpu_time_limit: opts.cpu_time_limit,
            memory_limit: opts.memory_limit,
            input: opts.input,
            output: opts.output,
            error: opts.error,
            file_size_limit: opts.file_size_limit,
            pids_limit: opts.pids_limit,
            workdir: opts.workdir,
            network_enabled: opts.network_enabled,
        }
    }
}

impl Sandbox {
    /// The resource ceilings of this run, in installation order.
    pub fn rlimit_plan(&self) -> (r: Vec<RlimitSetting>)
        ensures
            r@ == rlimit_plan_spec(*self),
    {
        let mut v: Vec<RlimitSetting> = Vec::new();
        match self.cpu_time_limit {
            Some(l) if l > 0 => {
                let secs = cpu_rlimit_seconds(l);
                v.push(RlimitSetting { resource: RlimitResource::CpuSeconds, soft: secs, hard: secs });
            },
            _ => {},
        }
        match self.memory_limit {
            Some(l) if l > 0 => {
                let bytes = memory_rlimit_bytes(l);
                v.push(
                    RlimitSetting { resource: RlimitResource::AddressSpace, soft: bytes, hard: bytes },
                );
                v.push(RlimitSetting { resource: RlimitResource::Stack, soft: bytes, hard: bytes });
            },
            _ => {},
        }
        match self.file_size_limit {
            Some(l) if l > 0 => {
                v.push(
                    RlimitSetting {
                        resource: RlimitResource::FileSize,
                        soft: l as u64,
                        hard: l as u64,
                    },
                );
            },
            _ => {},
        }
        match self.pids_limit {
            Some(l) if l > 0 => {
                v.push(
                    RlimitSetting {
                        resource: RlimitResource::ProcessCount,
                        soft: l as u64,
                        hard: l as u64,
                    },
                );
            },
            _ => {},
        }
        proof {
            assert(v@ =~= rlimit_plan_spec(*self));
        }
        v
    }

    /// The stream redirections of this run, in stream order.
    pub fn redirect_plan(&self) -> (r: Vec<Redirect>)
        ensures
            redirect_plan_ok(*self, r@),
    {
        let mut v: Vec<Redirect> = Vec::new();
        match &self.input {
            Some(p) => {
                v.push(
                    Redirect {
                        path: p.clone(),
                        kind: OpenKind::ReadOnly,
                        mode: 0o644,
                        target_fd: 0,
                    },
                );
            },
            None => {},
        }
        match &self.output {
            Some(p) => {
                v.push(
                    Redirect {
                        path: p.clone(),
                        kind: OpenKind::CreateTruncate,
                        mode: 0o644,
                        target_fd: 1,
                    },
                );
            },
            None => {},
        }
        match &self.error {
            Some(p) => {
                v.push(
                    Redirect {
                        path: p.clone(),
                        kind: OpenKind::CreateTruncate,
                        mode: 0o644,
                        target_fd: 2,
                    },
                );
            },
            None => {},
        }
        v
    }

    /// The namespaces of this run.
    pub fn namespace_plan(&self) -> (r: NamespaceSet)
        ensures
            r.user && r.uts && r.mount && r.ipc && r.cgroup && r.pid,
            r.net == !self.network_enabled,
    {
        namespace_plan(self.network_enabled)
    }

    /// Everything the guest candidate does between fork and exec, in order:
    /// install the resource ceilings, open and bind the redirections, change
    /// into the working directory when one is set, then exec the command
    /// with an empty environment. Fails on an empty command before any OS
    /// call, and when an argument holds an interior NUL.
    pub fn guest_plan(&self) -> (r: Result<GuestPlan, Error>)
        ensures
            self.inner_args@.len() == 0 ==> r is Err,
            self.inner_args@.len() > 0 ==> (r is Ok <==> (forall|i: int|
                0 <= i < self.inner_args@.len() ==> !crate::sys::linux::utils::has_nul(
                    #[trigger] self.inner_args@[i]@,
                ))),
            self.inner_args@.len() == 0 ==> (r matches Err(e) && e is Config),
            self.inner_args@.len() > 0 && r is Err ==> (r matches Err(e) && e is E),
            r matches Ok(g) ==> ({
                &&& g.rlimits@ == rlimit_plan_spec(*self)
                &&& redirect_plan_ok(*self, g.redirects@)
                &&& g.workdir == self.workdir
                &&& g.exec_args.pathname@ == self.inner_args@[0]@
                &&& g.exec_args.argv.deep_view() == self.inner_args.deep_view()
                &&& g.exec_args.envp@.len() == 0
            }),
    {
        if self.inner_args.len() == 0 {
            return Err(Error::Config(String::from_str("empty command")));
        }
        let exec_args = match crate::sys::linux::utils::ExecArgs::build(&self.inner_args) {
            Ok(e) => e,
            Err(e) => {
                return Err(e);
            },
        };
        let rlimits = self.rlimit_plan();
        let redirects = self.redirect_plan();
        let workdir = match &self.workdir {
            Some(p) => Some(p.clone()),
            None => None,
        };
        Ok(GuestPlan { rlimits, redirects, workdir, exec_args })
    }
}

/// What the guest candidate carries out between fork and exec.
#[derive(Debug)]
pub struct GuestPlan {
    pub rlimits: Vec<RlimitSetting>,
    pub redirects: Vec<Redirect>,
    pub workdir: Option<String>,
    pub exec_args: crate::sys::linux::utils::ExecArgs,
}

/// The CPU milliseconds a usage record reports: the user and system
/// seconds together, plus the two microsecond fields summed before the
/// division, so that their sub-millisecond remainders are not both lost.
pub open spec fn cpu_ms_of_rusage(ru: Rusage) -> int {
    (ru.utime_sec + ru.stime_sec) * 1000 + (ru.utime_usec + ru.stime_usec) / 1000
}

/// A usage record as the kernel hands it out: microseconds below one
/// million, seconds and peak memory non-negative and well below overflow.
pub open spec fn rusage_bounded(ru: Rusage) -> bool {
    &&& 0 <= ru.utime_sec < 0x4_0000_0000_0000
    &&& 0 <= ru.stime_sec < 0x4_0000_0000_0000
    &&& 0 <= ru.utime_usec < 1000000
    &&& 0 <= ru.stime_usec < 1000000
    &&& 0 <= ru.maxrss
}

/// The result record of one wait: the caller's wall clock, the usage
/// record's CPU time and peak memory, and the decoded status word.
pub open spec fn wait_record(raw: i32, ru: Rusage, wall_ms: u64) -> Status {
    Status {
        time_used: wall_ms,
        cpu_time_used: cpu_ms_of_rusage(ru) as u64,
        memory_used: ru.maxrss as u64,
        exit_code: spec_exit_code(raw),
        status: raw,
        signal: spec_signal(raw),
    }
}

/// Builds the result record from one wait. The wall time is measured by the
/// caller around the wait; CPU time and peak memory come from the usage
/// record; exit code and signal are decoded from the status word. All three
/// counters are non-negative.
pub fn status_of_wait(raw: i32, ru: &Rusage, wall_ms: u64) -> (r: Status)
    requires
        rusage_bounded(*ru),
    ensures
        r == wait_record(raw, *ru, wall_ms),
        r.time_used >= 0,
        r.cpu_time_used == cpu_ms_of_rusage(*ru),
        r.memory_used == ru.maxrss,
        r.status == raw,
        r.exit_code == spec_exit_code(raw),
        r.signal == spec_signal(raw),
{
    let cpu: i64 = (ru.utime_sec + ru.stime_sec) * 1000 + (ru.utime_usec + ru.stime_usec) / 1000;
    Status {
        time_used: wall_ms,
        cpu_time_used: cpu as u64,
        memory_used: ru.maxrss as u64,
        exit_code: exit_code_of_status(raw),
        status: raw,
        signal: signal_of_status(raw),
    }
}

/// Runs that end with the same status word report the same exit code and
/// the same signal, whatever their timing and memory counters: repeated
/// runs of a deterministic guest under identical options agree on how they
/// ended, though the counters may vary.
pub proof fn lemma_outcome_depends_on_status_alone(raw: i32, ru1: Rusage, ru2: Rusage, w1: u64, w2: u64)
    ensures
        wait_record(raw, ru1, w1).exit_code == wait_record(raw, ru2, w2).exit_code,
        wait_record(raw, ru1, w1).signal == wait_record(raw, ru2, w2).signal,
{
}

} // verus!
