//! The platform supervisors. Each consumes the shared options record and
//! computes the plans (process creation, limits, redirections, accounting)
//! that the launching binary carries out with the platform's own calls.

pub mod linux;
pub mod windows;

use crate::opts::Opts;
use vstd::prelude::*;

verus! {

/// What either supervisor offers: construction from the options record.
/// `wf_from` says, per variant, that the supervisor carries exactly what the
/// options configured.
pub trait SandboxImpl: Sized {
    spec fn wf_from(&self, opts: Opts) -> bool;

    fn with_opts(opts: Opts) -> (r: Self)
        ensures
            r.wf_from(opts),
    ;
}

} // verus!
