//! The top-level sandbox builder: a command plus the three numeric limits,
//! set fluently, and the run plan the job-object supervisor executes for it.

use crate::error::Error;
use crate::sys::windows::{CreationPlan, JobLimits};
use vstd::prelude::*;

verus! {

/// A run under construction: the command and the wall-clock, CPU and memory
/// ceilings.
#[derive(Debug)]
pub struct Sandbox {
    pub inner_args: Vec<String>,
    pub time_limit: Option<u32>,
    pub cpu_time_limit: Option<u32>,
    pub memory_limit: Option<u32>,
}

impl Sandbox {
    /// A sandbox for the given command, with no limits.
    pub fn new(args: Vec<String>) -> (r: Self)
        ensures
            r.inner_args == args,
            r.time_limit is None,
            r.cpu_time_limit is None,
            r.memory_limit is None,
    {
        Sandbox { inner_args: args, time_limit: None, cpu_time_limit: None, memory_limit: None }
    }

    /// Sets the wall-clock deadline in milliseconds.
    pub fn time_limit(self, l: Option<u32>) -> (r: Self)
        ensures
            r.time_limit == l,
            r.inner_args == self.inner_args,
            r.cpu_time_limit == self.cpu_time_limit,
            r.memory_limit == self.memory_limit,
    {
        let mut s = self;
        s.time_limit = l;
        s
    }

    /// Sets the CPU deadline in milliseconds.
    pub fn cpu_time_limit(self, l: Option<u32>) -> (r: Self)
        ensures
            r.cpu_time_limit == l,
            r.inner_args == self.inner_args,
            r.time_limit == self.time_limit,
            r.memory_limit == self.memory_limit,
    {
        let mut s = self;
        s.cpu_time_limit = l;
        s
    }

    /// Sets the address-space cap in KiB.
    pub fn memory_limit(self, l: Option<u32>) -> (r: Self)
        ensures
            r.memory_limit == l,
            r.inner_args == self.inner_args,
            r.time_limit == self.time_limit,
            r.cpu_time_limit == self.cpu_time_limit,
    {
        let mut s = self;
        s.memory_limit = l;
        s
    }

    /// Everything one run of this sandbox does before its wait, in order:
    /// create the process suspended, attach the job limits, resume, then
    /// wait with the returned timeout. Fails exactly when the command is
    /// empty.
    pub fn run_plan(&self) -> (r: Result<(CreationPlan, JobLimits, u32), Error>)
        ensures
            r is Ok <==> self.inner_args@.len() > 0,
            r is Err ==> (r matches Err(e) && e is Config),
            r matches Ok(p) ==> ({
                &&& p.0.app@ == self.inner_args@[0]@
                &&& self.inner_args@.len() <= 1 ==> p.0.command_line is None
                &&& self.inner_args@.len() > 1 ==> (p.0.command_line matches Some(c) && c@
                    == crate::text::join_sp(self.inner_args.deep_view().skip(1)))
                &&& !p.0.inherit_handles
                &&& p.0.create_suspended
                &&& p.1.idle_priority
                &&& (self.cpu_time_limit matches Some(l) ==> p.1.process_time_limit_100ns == Some(
                    (l * 10000) as u64,
                ))
                &&& (self.cpu_time_limit is None ==> p.1.process_time_limit_100ns is None)
                &&& (self.memory_limit matches Some(l) ==> p.1.working_set_bytes == Some(
                    (l * 1024) as u64,
                ))
                &&& (self.memory_limit is None ==> p.1.working_set_bytes is None)
                &&& (self.time_limit matches Some(t) ==> p.2 == t)
                &&& (self.time_limit is None ==> p.2 == crate::sys::windows::INFINITE)
            }),
    {
        let mut args: Vec<String> = Vec::new();
        let n = self.inner_args.len();
        let mut i: usize = 0;
        while i < n
            invariant
                n == self.inner_args@.len(),
                i <= n,
                args@.len() == i,
                forall|j: int| 0 <= j < i ==> #[trigger] args@[j]@ == self.inner_args@[j]@,
            decreases n - i,
        {
            args.push(self.inner_args[i].clone());
            i += 1;
        }
        let sb = crate::sys::windows::Sandbox {
            inner_args: args,
            time_limit: self.time_limit,
            cpu_time_limit: self.cpu_time_limit,
            memory_limit: self.memory_limit,
            input: None,
            output: None,
            error: None,
        };
        proof {
            assert forall|j: int| 0 <= j < n implies sb.inner_args.deep_view()[j]
                == self.inner_args.deep_view()[j] by {
                assert(sb.inner_args@[j]@ == self.inner_args@[j]@);
            }
            assert(sb.inner_args.deep_view() =~= self.inner_args.deep_view());
        }
        let creation = match sb.creation_plan() {
            Ok(p) => p,
            Err(e) => {
                return Err(e);
            },
        };
        proof {
            assert(sb.inner_args.deep_view().skip(1) =~= self.inner_args.deep_view().skip(1));
        }
        let limits = sb.limit_plan();
        let timeout = sb.wait_timeout();
        Ok((creation, limits, timeout))
    }
}

} // verus!
