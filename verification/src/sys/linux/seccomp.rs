//! The syscall filter policy: an allowlist of syscall numbers. A syscall
//! that is not listed is killed, not merely denied, so that sandboxed
//! misbehavior is never silently downgraded.

use vstd::prelude::*;

verus! {

/// What the filter does with one syscall.
#[derive(Clone, Copy, Debug, PartialEq, Eq, Structural)]
pub enum FilterAction {
    Allow,
    Kill,
}

/// An allowlist of syscall numbers.
#[derive(Debug)]
pub struct Policy {
    pub allowed: Vec<i64>,
}

impl Policy {
    /// Whether the policy lets a syscall through.
    pub open spec fn allows(&self, nr: i64) -> bool {
        self.allowed@.contains(nr)
    }

    /// An empty policy: every syscall is killed.
    pub fn new() -> (r: Self)
        ensures
            r.allowed@.len() == 0,
    {
        Policy { allowed: Vec::new() }
    }

    /// Adds one syscall to the allowlist.
    pub fn allow(&mut self, nr: i64)
        ensures
            final(self).allowed@ == old(self).allowed@.push(nr),
    {
        self.allowed.push(nr);
    }

    /// The decision for one syscall: allowed exactly when listed, killed
    /// otherwise.
    pub fn decide(&self, nr: i64) -> (r: FilterAction)
        ensures
            r == FilterAction::Allow <==> self.allows(nr),
            r == FilterAction::Kill <==> !self.allows(nr),
    {
        let n = self.allowed.len();
        let mut i: usize = 0;
        while i < n
            invariant
                n == self.allowed@.len(),
                i <= n,
                forall|j: int| 0 <= j < i ==> self.allowed@[j] != nr,
            decreases n - i,
        {
            if self.allowed[i] == nr {
                return FilterAction::Allow;
            }
            i += 1;
        }
        FilterAction::Kill
    }
}

} // verus!
