//! Helpers of the namespace supervisor: the zeroed usage record, the last OS
//! error, and the argument block the exec call needs.

use crate::error::Error;
use crate::utils::Rusage;
use vstd::prelude::*;

verus! {

/// The message for the OS error the calling thread saw last.
pub fn last_err() -> String {
    crate::utils::last_err()
}

/// A usage record with every counter zero.
pub fn new_rusage() -> (r: Rusage)
    ensures
        r.utime_sec == 0,
        r.utime_usec == 0,
        r.stime_sec == 0,
        r.stime_usec == 0,
        r.maxrss == 0,
{
    crate::utils::new_rusage()
}

/// Whether a string holds an interior NUL, which no C string can carry.
pub open spec fn has_nul(s: Seq<char>) -> bool {
    exists|i: int| 0 <= i < s.len() && s[i] == '\u{0}'
}

/// Whether `s` holds a NUL character.
fn contains_nul(s: &str) -> (r: bool)
    ensures
        r == has_nul(s@),
{
    let len = s.unicode_len();
    let mut i: usize = 0;
    while i < len
        invariant
            len == s@.len(),
            i <= len,
            forall|j: int| 0 <= j < i ==> s@[j] != '\u{0}',
        decreases len - i,
    {
        if s.get_char(i) == '\u{0}' {
            return true;
        }
        i += 1;
    }
    false
}

/// The argument block handed to the kernel's exec call — the program path,
/// the argument array and the (empty) environment — modelled as the strings
/// the null-terminated pointer arrays point at. The launching binary owns
/// the C copies it makes of them until exec or an explicit release.
#[derive(Debug)]
pub struct ExecArgs {
    pub pathname: String,
    pub argv: Vec<String>,
    pub envp: Vec<String>,
}

impl ExecArgs {
    /// Converts the argument vector into the exec block: the program is the
    /// first argument, the argument array carries all of them, the
    /// environment is empty. Fails exactly when some argument holds an
    /// interior NUL, which cannot become a C string.
    pub fn build(args: &Vec<String>) -> (r: Result<ExecArgs, Error>)
        requires
            args@.len() > 0,
        ensures
            r is Ok <==> (forall|i: int| 0 <= i < args@.len() ==> !has_nul(#[trigger] args@[i]@)),
            r is Err ==> (r matches Err(e) && e is E),
            r matches Ok(e) ==> e.pathname@ == args@[0]@ && e.argv.deep_view() == args.deep_view()
                && e.envp@.len() == 0,
    {
        let n = args.len();
        let mut argv: Vec<String> = Vec::new();
        let mut i: usize = 0;
        while i < n
            invariant
                n == args@.len(),
                i <= n,
                argv@.len() == i,
                forall|j: int| 0 <= j < i ==> #[trigger] argv@[j]@ == args@[j]@,
                forall|j: int| 0 <= j < i ==> !has_nul(#[trigger] args@[j]@),
            decreases n - i,
        {
            if contains_nul(args[i].as_str()) {
                return Err(Error::E(String::from_str("argument holds an interior NUL byte")));
            }
            argv.push(args[i].clone());
            i += 1;
        }
        let pathname = argv[0].clone();
        proof {
            assert forall|j: int| 0 <= j < n implies argv.deep_view()[j] == args.deep_view()[j] by {
                assert(argv@[j]@ == args@[j]@);
            }
            assert(argv.deep_view() =~= args.deep_view());
        }
        Ok(ExecArgs { pathname, argv, envp: Vec::new() })
    }
}

} // verus!
