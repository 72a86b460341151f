//! The two-record interface a scripting host sees: a builder holding the
//! command, limits and stream descriptors, and a result record with one
//! getter per counter.

use crate::text::{dec_rep_int, join_sp, split_whitespace_vec, split_ws};
use vstd::prelude::*;

verus! {

/// What a run returned to the scripting host.
#[derive(Clone, Copy, Debug, PartialEq, Eq, Structural)]
pub struct RiverResult {
    pub time_used: i32,
    pub memory_used: i32,
    pub signal: i32,
    pub exit_code: i32,
}

impl RiverResult {
    /// The wall time in milliseconds.
    pub fn time_used(&self) -> (r: i32)
        ensures
            r == self.time_used,
    {
        self.time_used
    }

    /// The peak memory in KiB.
    pub fn memory_used(&self) -> (r: i32)
        ensures
            r == self.memory_used,
    {
        self.memory_used
    }

    /// The killing signal, zero when none.
    pub fn signal(&self) -> (r: i32)
        ensures
            r == self.signal,
    {
        self.signal
    }

    /// The exit code of a normal exit.
    pub fn exit_code(&self) -> (r: i32)
        ensures
            r == self.exit_code,
    {
        self.exit_code
    }
}

/// The builder the scripting host fills: the program, its arguments, the
/// two limits and the three stream descriptors.
#[derive(Debug)]
pub struct River {
    pub file: String,
    pub args: Vec<String>,
    pub time_limit: Option<i32>,
    pub memory_limit: Option<i32>,
    pub in_fd: Option<i32>,
    pub out_fd: Option<i32>,
    pub err_fd: Option<i32>,
}

/// The human-readable summary of a builder: the command line, then one line
/// per limit that is set.
pub open spec fn river_repr(r: River) -> Seq<char> {
    "command:      "@ + r.file@ + (if r.args@.len() > 0 {
        " "@ + join_sp(r.args.deep_view())
    } else {
        Seq::empty()
    }) + (match r.time_limit {
        Some(t) => "\ntime limit:   "@ + dec_rep_int(t as int),
        None => Seq::empty(),
    }) + (match r.memory_limit {
        Some(m) => "\nmemory limit: "@ + dec_rep_int(m as int),
        None => Seq::empty(),
    })
}

impl River {
    /// Splits one command line on white space: the first word is the
    /// program, the rest are its arguments; no limit and no descriptor is
    /// set. The line must hold at least one word.
    pub fn new(cmd: &str) -> (r: Self)
        requires
            split_ws(cmd@).len() > 0,
        ensures
            r.file@ == split_ws(cmd@)[0],
            r.args.deep_view() == split_ws(cmd@).skip(1),
            r.time_limit is None,
            r.memory_limit is None,
            r.in_fd is None,
            r.out_fd is None,
            r.err_fd is None,
    {
        let mut words = split_whitespace_vec(cmd);
        let file = words.remove(0);
        proof {
            assert(file@ == split_ws(cmd@)[0]);
            assert forall|j: int| 0 <= j < words@.len() implies words.deep_view()[j] == split_ws(
                cmd@,
            ).skip(1)[j] by {
                assert(words.deep_view()[j] == words@[j]@);
            }
            assert(words.deep_view() =~= split_ws(cmd@).skip(1));
        }
        River {
            file,
            args: words,
            time_limit: None,
            memory_limit: None,
            in_fd: None,
            out_fd: None,
            err_fd: None,
        }
    }

    /// Sets the wall-clock limit in milliseconds.
    pub fn set_time_limit(&mut self, time_limit: i32)
        ensures
            final(self).time_limit == Some(time_limit),
            final(self).file == old(self).file,
            final(self).args == old(self).args,
            final(self).memory_limit == old(self).memory_limit,
            final(self).in_fd == old(self).in_fd,
            final(self).out_fd == old(self).out_fd,
            final(self).err_fd == old(self).err_fd,
    {
        self.time_limit = Some(time_limit)
    }

    /// The wall-clock limit.
    pub fn get_time_limit(&self) -> (r: Option<i32>)
        ensures
            r == self.time_limit,
    {
        self.time_limit
    }

    /// Sets the memory limit in KiB.
    pub fn set_memory_limit(&mut self, memory_limit: i32)
        ensures
            final(self).memory_limit == Some(memory_limit),
            final(self).file == old(self).file,
            final(self).args == old(self).args,
            final(self).time_limit == old(self).time_limit,
            final(self).in_fd == old(self).in_fd,
            final(self).out_fd == old(self).out_fd,
            final(self).err_fd == old(self).err_fd,
    {
        self.memory_limit = Some(memory_limit)
    }

    /// The memory limit.
    pub fn get_memory_limit(&self) -> (r: Option<i32>)
        ensures
            r == self.memory_limit,
    {
        self.memory_limit
    }

    /// Sets the descriptor standard input is read from.
    pub fn set_in_fd(&mut self, fd: i32)
        ensures
            final(self).in_fd == Some(fd),
            final(self).file == old(self).file,
            final(self).args == old(self).args,
            final(self).time_limit == old(self).time_limit,
            final(self).memory_limit == old(self).memory_limit,
            final(self).out_fd == old(self).out_fd,
            final(self).err_fd == old(self).err_fd,
    {
        self.in_fd = Some(fd)
    }

    /// The standard-input descriptor.
    pub fn get_in_fd(&self) -> (r: Option<i32>)
        ensures
            r == self.in_fd,
    {
        self.in_fd
    }

    /// Sets the descriptor standard output goes to.
    pub fn set_out_fd(&mut self, fd: i32)
        ensures
            final(self).out_fd == Some(fd),
            final(self).file == old(self).file,
            final(self).args == old(self).args,
            final(self).time_limit == old(self).time_limit,
            final(self).memory_limit == old(self).memory_limit,
            final(self).in_fd == old(self).in_fd,
            final(self).err_fd == old(self).err_fd,
    {
        self.out_fd = Some(fd)
    }

    /// The standard-output descriptor.
    pub fn get_out_fd(&self) -> (r: Option<i32>)
        ensures
            r == self.out_fd,
    {
        self.out_fd
    }

    /// Sets the descriptor standard error goes to.
    pub fn set_err_fd(&mut self, fd: i32)
        ensures
            final(self).err_fd == Some(fd),
            final(self).file == old(self).file,
            final(self).args == old(self).args,
            final(self).time_limit == old(self).time_limit,
            final(self).memory_limit == old(self).memory_limit,
            final(self).in_fd == old(self).in_fd,
            final(self).out_fd == old(self).out_fd,
    {
        self.err_fd = Some(fd)
    }

    /// The standard-error descriptor.
    pub fn get_err_fd(&self) -> (r: Option<i32>)
        ensures
            r == self.err_fd,
    {
        self.err_fd
    }

    /// The human-readable summary of the builder.
    pub fn __str__(&self) -> (r: String)
        ensures
            r@ == river_repr(*self),
    {
        let mut resp = String::from_str("command:      ");
        resp.append(self.file.as_str());
        if self.args.len() > 0 {
            resp.append(" ");
            let joined = crate::text::join_spaces(&self.args);
            resp.append(joined.as_str());
        }
        match self.time_limit {
            Some(t) => {
                resp.append("\ntime limit:   ");
                let ts = crate::text::i32_to_string(t);
                resp.append(ts.as_str());
            },
            None => {},
        }
        match self.memory_limit {
            Some(m) => {
                resp.append("\nmemory limit: ");
                let ms = crate::text::i32_to_string(m);
                resp.append(ms.as_str());
            },
            None => {},
        }
        proof {
            assert(resp@ =~= river_repr(*self));
        }
        resp
    }
}

} // verus!
