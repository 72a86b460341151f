//! Helpers of the job-object supervisor: the terminated strings the
//! platform's narrow-string calls point at, and the open plan for a redirect
//! file.

use vstd::prelude::*;

verus! {

/// The text a constant narrow-string pointer hands to the platform: the
/// string with one terminator appended.
pub fn string_to_pcstr(s: &str) -> (r: String)
    ensures
        r@ == s@ + seq!['\u{0}'],
{
    let mut r = String::from_str(s);
    r.append("\u{0}");
    proof {
        reveal_strlit("\u{0}");
        assert(r@ =~= s@ + seq!['\u{0}']);
    }
    r
}

/// The text a mutable narrow-string pointer hands to the platform; the
/// content is the same as for the constant pointer, only the call site
/// passes it writable.
pub fn string_to_pstr(s: &str) -> (r: String)
    ensures
        r@ == s@ + seq!['\u{0}'],
{
    string_to_pcstr(s)
}

/// How a redirect file is opened: write access and create-always for the
/// output streams, read access and open-existing for the input stream; the
/// handle is always inheritable so the guest receives it.
#[derive(Clone, Debug)]
pub struct FilePlan {
    pub path: String,
    pub write_access: bool,
    pub create_always: bool,
    pub inheritable: bool,
}

/// The open plan for the handle of one redirect file: `'w'` asks for the
/// write side, anything else for the read side.
pub fn handle_from_file(file: &str, wr: char) -> (r: FilePlan)
    ensures
        r.path@ == file@,
        r.write_access == (wr == 'w'),
        r.create_always == (wr == 'w'),
        r.inheritable,
{
    FilePlan {
        path: String::from_str(file),
        write_access: wr == 'w',
        create_always: wr == 'w',
        inheritable: true,
    }
}

} // verus!
