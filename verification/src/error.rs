//! The error model: one kind per failure class, each carrying enough context
//! to identify the failing site.

use crate::text::{dec_rep, dec_rep_int};
use vstd::prelude::*;

verus! {

/// A failure reported by the engine to its caller.
#[derive(Debug)]
pub enum Error {
    /// A generic string-tagged failure.
    E(String),
    /// A rejected configuration, found before any OS call.
    Config(String),
    /// A native call that returned failure: source file, source line, and the
    /// OS errno or HRESULT.
    Os(String, u32, i32),
    /// A failure on a redirect stream or on the result file.
    Io(String),
    /// A failure while encoding the result record.
    Serialize(String),
}

pub type RResult<T> = Result<T, Error>;

/// The rendered message of an error.
pub open spec fn error_message(e: Error) -> Seq<char> {
    match e {
        Error::E(s) => s@,
        Error::Config(s) => "config error: "@ + s@,
        Error::Os(file, line, errno) => file@ + ":"@ + dec_rep(line as nat) + ": os error "@
            + dec_rep_int(errno as int),
        Error::Io(s) => "io error: "@ + s@,
        Error::Serialize(s) => "serialize error: "@ + s@,
    }
}

impl Error {
    /// Renders the error as a message for logs and process exit paths.
    pub fn to_string(&self) -> (r: String)
        ensures
            r@ == error_message(*self),
    {
        match self {
            Error::E(s) => s.clone(),
            Error::Config(s) => {
                let mut r = String::from_str("config error: ");
                r.append(s.as_str());
                proof {
                    assert(r@ =~= error_message(*self));
                }
                r
            },
            Error::Os(file, line, errno) => {
                let mut r = file.clone();
                r.append(":");
                let line_s = crate::text::u64_to_string(*line as u64);
                r.append(line_s.as_str());
                r.append(": os error ");
                let errno_s = crate::text::i32_to_string(*errno);
                r.append(errno_s.as_str());
                proof {
                    assert(r@ =~= error_message(*self));
                }
                r
            },
            Error::Io(s) => {
                let mut r = String::from_str("io error: ");
                r.append(s.as_str());
                proof {
                    assert(r@ =~= error_message(*self));
                }
                r
            },
            Error::Serialize(s) => {
                let mut r = String::from_str("serialize error: ");
                r.append(s.as_str());
                proof {
                    assert(r@ =~= error_message(*self));
                }
                r
            },
        }
    }
}

} // verus!
