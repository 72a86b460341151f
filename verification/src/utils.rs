//! OS error text, and the usage record the supervisor reads after a wait.

use vstd::prelude::*;

verus! {

/// Relies on std::io::Error::last_os_error / raw_os_error: the errno the OS
/// last set for the calling thread, when there is one. The value depends on
/// what the thread did last, so nothing is stated of it.
#[verifier::external_body]
fn last_os_errno() -> (r: Option<i32>) {
    std::io::Error::last_os_error().raw_os_error()
}

/// Relies on std::io::Error::from_raw_os_error: the OS message for an errno.
/// The text depends on platform and locale, so nothing is stated of it.
#[verifier::external_body]
fn os_error_message(errno: i32) -> (r: String) {
    std::io::Error::from_raw_os_error(errno).to_string()
}

/// The OS error message for `errno`, with a fixed fallback when the failing
/// call set no errno at all.
pub fn errno_str(errno: Option<i32>) -> (r: String)
    ensures
        errno is None ==> r@ == "Unknown Error!"@,
{
    match errno {
        Some(no) => os_error_message(no),
        None => String::from_str("Unknown Error!"),
    }
}

/// The message for the OS error the calling thread saw last.
pub fn last_err() -> String {
    errno_str(last_os_errno())
}

/// What the supervisor reads out of the kernel's usage record after a wait:
/// user and system CPU time, and the peak resident set.
#[derive(Clone, Copy, Debug, PartialEq, Eq, Structural)]
pub struct Rusage {
    pub utime_sec: i64,
    pub utime_usec: i64,
    pub stime_sec: i64,
    pub stime_usec: i64,
    pub maxrss: i64,
}

/// A usage record with every counter zero.
pub fn new_rusage() -> (r: Rusage)
    ensures
        r.utime_sec == 0,
        r.utime_usec == 0,
        r.stime_sec == 0,
        r.stime_usec == 0,
        r.maxrss == 0,
{
    Rusage { utime_sec: 0, utime_usec: 0, stime_sec: 0, stime_usec: 0, maxrss: 0 }
}

} // verus!
