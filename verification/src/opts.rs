//! The options record the engine consumes: the command, the resource
//! ceilings, the stream redirections and where the result goes.

use crate::error::Error;
use vstd::prelude::*;

verus! {

/// The caller's configuration of one run. The command's first element is the
/// executable path. Each numeric limit above zero is applied; zero or absent
/// means "uncapped by this engine". Redirection paths are resolved against
/// the caller's working directory, not the guest's.
pub struct Opts {
    pub command: Vec<String>,
    pub time_limit: Option<u32>,
    pub cpu_time_limit: Option<u32>,
    pub memory_limit: Option<u32>,
    pub file_size_limit: Option<u32>,
    pub pids_limit: Option<u32>,
    pub input: Option<String>,
    pub output: Option<String>,
    pub error: Option<String>,
    pub workdir: Option<String>,
    pub network_enabled: bool,
    pub cgroup_version: u32,
    pub result: Option<String>,
}

/// A configuration the engine accepts: a command to run and a recognized
/// control-group layout.
pub open spec fn opts_valid(o: Opts) -> bool {
    o.command@.len() > 0 && (o.cgroup_version == 1 || o.cgroup_version == 2)
}

impl Opts {
    /// Checks the configuration before any OS call: accepted exactly when
    /// the command is non-empty and the control-group version is 1 or 2.
    pub fn validate(&self) -> (r: Result<(), Error>)
        ensures
            r is Ok <==> opts_valid(*self),
            r is Err ==> (r matches Err(e) && e is Config),
    {
        if self.command.len() == 0 {
            Err(Error::Config(String::from_str("empty command")))
        } else if self.cgroup_version != 1 && self.cgroup_version != 2 {
            Err(Error::Config(String::from_str("unrecognized cgroup version")))
        } else {
            Ok(())
        }
    }
}

impl Default for Opts {
    /// No command, no limits, no redirections, no network.
    fn default() -> (r: Self)
        ensures
            r.command@.len() == 0,
            r.time_limit is None,
            r.cpu_time_limit is None,
            r.memory_limit is None,
            r.file_size_limit is None,
            r.pids_limit is None,
            r.input is None,
            r.output is None,
            r.error is None,
            r.workdir is None,
            !r.network_enabled,
            r.cgroup_version == 1,
            r.result is None,
    {
        Opts {
            command: Vec::new(),
            time_limit: None,
            cpu_time_limit: None,
            memory_limit: None,
            file_size_limit: None,
            pids_limit: None,
            input: None,
            output: None,
            error: None,
            workdir: None,
            network_enabled: false,
            cgroup_version: 1,
            result: None,
        }
    }
}

} // verus!
