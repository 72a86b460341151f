//! The result record of one supervised run, and its JSON form: six counters,
//! written pretty-printed with two-space indentation and exactly one terminal
//! newline. The parser accepts exactly what the writer emits, so a record
//! written and re-parsed comes back unchanged.

use crate::text::{
    dec_rep, dec_rep_int, expect_lit, i32_to_string, is_dec_digit, parse_i32_field,
    parse_u64_field, u64_to_string,
};
use vstd::prelude::*;

verus! {

/// What one supervised run used and how it ended. Wall time and CPU time are
/// in milliseconds, peak memory in KiB; `status` is the raw wait status word,
/// `exit_code` the code of a normal exit, `signal` the killing or stopping
/// signal, zero when none.
#[derive(Clone, Copy, Debug, PartialEq, Eq, Structural)]
pub struct Status {
    pub time_used: u64,
    pub cpu_time_used: u64,
    pub memory_used: u64,
    pub exit_code: i32,
    pub status: i32,
    pub signal: i32,
}

impl Default for Status {
    /// A record with every counter zero.
    fn default() -> (r: Self)
        ensures
            r.time_used == 0,
            r.cpu_time_used == 0,
            r.memory_used == 0,
            r.exit_code == 0,
            r.status == 0,
            r.signal == 0,
    {
        Status {
            time_used: 0,
            cpu_time_used: 0,
            memory_used: 0,
            exit_code: 0,
            status: 0,
            signal: 0,
        }
    }
}

/// Every run's record carries non-negative counters: wall time, CPU time
/// and peak memory are stored unsigned, so no successful run can report a
/// negative one.
pub proof fn lemma_counters_nonneg(s: Status)
    ensures
        s.time_used >= 0,
        s.cpu_time_used >= 0,
        s.memory_used >= 0,
{
}

/// The opening label and first three (unsigned) counters of the document.
pub open spec fn json_head(a: u64, b: u64, c: u64) -> Seq<char> {
    "{\n  \"time_used\": "@ + dec_rep(a as nat) + ",\n  \"cpu_time_used\": "@ + dec_rep(b as nat)
        + ",\n  \"memory_used\": "@ + dec_rep(c as nat)
}

/// The three (signed) termination fields of the document.
pub open spec fn json_tail(d: i32, e: i32, f: i32) -> Seq<char> {
    ",\n  \"exit_code\": "@ + dec_rep_int(d as int) + ",\n  \"status\": "@ + dec_rep_int(e as int)
        + ",\n  \"signal\": "@ + dec_rep_int(f as int)
}

/// The JSON document for a record: the six fields in fixed order, two-space
/// indentation, one terminal newline.
pub open spec fn json_of(s: Status) -> Seq<char> {
    json_head(s.time_used, s.cpu_time_used, s.memory_used) + json_tail(
        s.exit_code,
        s.status,
        s.signal,
    ) + "\n}\n"@
}

/// A record's document splits into its head, its tail and the closing brace,
/// with a non-digit right after head and tail.
pub proof fn lemma_json_split(t: Seq<char>, s: Status)
    requires
        t == json_of(s),
    ensures
        ({
            let h = json_head(s.time_used, s.cpu_time_used, s.memory_used);
            let tl = json_tail(s.exit_code, s.status, s.signal);
            let l7 = "\n}\n"@;
            let hl = h.len() as int;
            let tll = tl.len() as int;
            let l7l = l7.len() as int;
            &&& t.len() == hl + tll + l7l
            &&& t.subrange(0, hl) == h
            &&& t[hl] == ','
            &&& t.subrange(hl, hl + tll) == tl
            &&& t[hl + tll] == '\n'
            &&& t.subrange(hl + tll, hl + tll + l7l) == l7
        }),
{
    reveal_strlit(",\n  \"exit_code\": ");
    reveal_strlit("\n}\n");
    let h = json_head(s.time_used, s.cpu_time_used, s.memory_used);
    let tl = json_tail(s.exit_code, s.status, s.signal);
    let l7 = "\n}\n"@;
    let hl = h.len() as int;
    let tll = tl.len() as int;
    let l7l = l7.len() as int;
    assert(t.subrange(0, hl) =~= h);
    assert(t.subrange(hl, hl + tll) =~= tl);
    assert(t.subrange(hl + tll, hl + tll + l7l) =~= l7);
    assert(t[hl] == t.subrange(hl, hl + tll)[0]);
    assert(tl[0] == ",\n  \"exit_code\": "@[0]);
    assert(t[hl + tll] == t.subrange(hl + tll, hl + tll + l7l)[0]);
}

/// A head standing at the front of the text splits into its three labelled
/// fields, each number followed by the comma of the next label.
pub proof fn lemma_head_parts(t: Seq<char>, e: int, a: u64, b: u64, c: u64)
    requires
        0 <= e <= t.len(),
        t.subrange(0, e) == json_head(a, b, c),
    ensures
        ({
            let n1 = "{\n  \"time_used\": "@.len() + dec_rep(a as nat).len();
            let n2 = n1 + ",\n  \"cpu_time_used\": "@.len() + dec_rep(b as nat).len();
            let n3 = n2 + ",\n  \"memory_used\": "@.len() + dec_rep(c as nat).len();
            &&& e == n3
            &&& t.subrange(0, n1 as int) == "{\n  \"time_used\": "@ + dec_rep(a as nat)
            &&& t[n1 as int] == ','
            &&& t.subrange(n1 as int, n2 as int) == ",\n  \"cpu_time_used\": "@ + dec_rep(
                b as nat,
            )
            &&& t[n2 as int] == ','
            &&& t.subrange(n2 as int, n3 as int) == ",\n  \"memory_used\": "@ + dec_rep(c as nat)
        }),
{
    reveal_strlit(",\n  \"cpu_time_used\": ");
    reveal_strlit(",\n  \"memory_used\": ");
    let h = json_head(a, b, c);
    let n1 = "{\n  \"time_used\": "@.len() + dec_rep(a as nat).len();
    let n2 = n1 + ",\n  \"cpu_time_used\": "@.len() + dec_rep(b as nat).len();
    let n3 = n2 + ",\n  \"memory_used\": "@.len() + dec_rep(c as nat).len();
    assert(h.len() == n3);
    assert(t.subrange(0, e).len() == e);
    assert forall|j: int| 0 <= j < n1 implies t.subrange(0, n1 as int)[j] == ("{\n  \"time_used\": "@
        + dec_rep(a as nat))[j] by {
        assert(t.subrange(0, e)[j] == h[j]);
        assert(t.subrange(0, e)[j] == t[j]);
        assert(t.subrange(0, n1 as int)[j] == t[j]);
    }
    assert(t.subrange(0, n1 as int) =~= "{\n  \"time_used\": "@ + dec_rep(a as nat));
    assert forall|j: int| 0 <= j < n2 - n1 implies t.subrange(n1 as int, n2 as int)[j] == (
    ",\n  \"cpu_time_used\": "@ + dec_rep(b as nat))[j] by {
        assert(t.subrange(0, e)[n1 + j] == h[n1 + j]);
        assert(t.subrange(0, e)[n1 + j] == t[n1 + j]);
        assert(t.subrange(n1 as int, n2 as int)[j] == t[n1 + j]);
    }
    assert(t.subrange(n1 as int, n2 as int) =~= ",\n  \"cpu_time_used\": "@ + dec_rep(b as nat));
    assert forall|j: int| 0 <= j < n3 - n2 implies t.subrange(n2 as int, n3 as int)[j] == (
    ",\n  \"memory_used\": "@ + dec_rep(c as nat))[j] by {
        assert(t.subrange(0, e)[n2 + j] == h[n2 + j]);
        assert(t.subrange(0, e)[n2 + j] == t[n2 + j]);
        assert(t.subrange(n2 as int, n3 as int)[j] == t[n2 + j]);
    }
    assert(t.subrange(n2 as int, n3 as int) =~= ",\n  \"memory_used\": "@ + dec_rep(c as nat));
    assert(t[n1 as int] == ',') by {
        assert(t.subrange(0, e)[n1 as int] == h[n1 as int]);
        assert(t.subrange(0, e)[n1 as int] == t[n1 as int]);
    }
    assert(t[n2 as int] == ',') by {
        assert(t.subrange(0, e)[n2 as int] == h[n2 as int]);
        assert(t.subrange(0, e)[n2 as int] == t[n2 as int]);
    }
}

/// A tail standing at `pos` splits into its three labelled fields, each
/// number followed by the comma of the next label.
pub proof fn lemma_tail_parts(t: Seq<char>, pos: int, e: int, a: i32, b: i32, c: i32)
    requires
        0 <= pos <= e <= t.len(),
        t.subrange(pos, e) == json_tail(a, b, c),
    ensures
        ({
            let n1 = pos + ",\n  \"exit_code\": "@.len() + dec_rep_int(a as int).len();
            let n2 = n1 + ",\n  \"status\": "@.len() + dec_rep_int(b as int).len();
            let n3 = n2 + ",\n  \"signal\": "@.len() + dec_rep_int(c as int).len();
            &&& e == n3
            &&& t.subrange(pos, n1 as int) == ",\n  \"exit_code\": "@ + dec_rep_int(a as int)
            &&& t[n1 as int] == ','
            &&& t.subrange(n1 as int, n2 as int) == ",\n  \"status\": "@ + dec_rep_int(b as int)
            &&& t[n2 as int] == ','
            &&& t.subrange(n2 as int, n3 as int) == ",\n  \"signal\": "@ + dec_rep_int(c as int)
        }),
{
    reveal_strlit(",\n  \"status\": ");
    reveal_strlit(",\n  \"signal\": ");
    let tl = json_tail(a, b, c);
    let n1 = pos + ",\n  \"exit_code\": "@.len() + dec_rep_int(a as int).len();
    let n2 = n1 + ",\n  \"status\": "@.len() + dec_rep_int(b as int).len();
    let n3 = n2 + ",\n  \"signal\": "@.len() + dec_rep_int(c as int).len();
    assert(tl.len() == n3 - pos);
    assert(t.subrange(pos, e).len() == e - pos);
    assert forall|j: int| 0 <= j < n1 - pos implies t.subrange(pos, n1 as int)[j] == (
    ",\n  \"exit_code\": "@ + dec_rep_int(a as int))[j] by {
        assert(t.subrange(pos, e)[j] == tl[j]);
        assert(t.subrange(pos, e)[j] == t[pos + j]);
        assert(t.subrange(pos, n1 as int)[j] == t[pos + j]);
    }
    assert(t.subrange(pos, n1 as int) =~= ",\n  \"exit_code\": "@ + dec_rep_int(a as int));
    assert forall|j: int| 0 <= j < n2 - n1 implies t.subrange(n1 as int, n2 as int)[j] == (
    ",\n  \"status\": "@ + dec_rep_int(b as int))[j] by {
        assert(t.subrange(pos, e)[n1 - pos + j] == tl[n1 - pos + j]);
        assert(t.subrange(pos, e)[n1 - pos + j] == t[n1 + j]);
        assert(t.subrange(n1 as int, n2 as int)[j] == t[n1 + j]);
    }
    assert(t.subrange(n1 as int, n2 as int) =~= ",\n  \"status\": "@ + dec_rep_int(b as int));
    assert forall|j: int| 0 <= j < n3 - n2 implies t.subrange(n2 as int, n3 as int)[j] == (
    ",\n  \"signal\": "@ + dec_rep_int(c as int))[j] by {
        assert(t.subrange(pos, e)[n2 - pos + j] == tl[n2 - pos + j]);
        assert(t.subrange(pos, e)[n2 - pos + j] == t[n2 + j]);
        assert(t.subrange(n2 as int, n3 as int)[j] == t[n2 + j]);
    }
    assert(t.subrange(n2 as int, n3 as int) =~= ",\n  \"signal\": "@ + dec_rep_int(c as int));
    assert(t[n1 as int] == ',') by {
        assert(t.subrange(pos, e)[n1 - pos] == tl[n1 - pos]);
        assert(t.subrange(pos, e)[n1 - pos] == t[n1 as int]);
    }
    assert(t[n2 as int] == ',') by {
        assert(t.subrange(pos, e)[n2 - pos] == tl[n2 - pos]);
        assert(t.subrange(pos, e)[n2 - pos] == t[n2 as int]);
    }
}

/// Reads the head of the document standing at the front of the text: the
/// three unsigned counters with their labels.
fn parse_counters(text: &str, len: usize) -> (r: Option<(u64, u64, u64, usize)>)
    requires
        len == text@.len(),
    ensures
        r matches Some(x) ==> x.3 <= len && text@.subrange(0, x.3 as int) == json_head(
            x.0,
            x.1,
            x.2,
        ) && (x.3 == len || !is_dec_digit(text@[x.3 as int])),
        forall|a: u64, b: u64, c: u64, e: int|
            #![trigger json_head(a, b, c), text@.subrange(0, e)]
            0 <= e <= len && text@.subrange(0, e) == json_head(a, b, c) && (e == len
                || !is_dec_digit(text@[e])) ==> r == Some((a, b, c, e as usize)),
{
    let r1 = parse_u64_field(text, len, 0, "{\n  \"time_used\": ");
    let r2 = match r1 {
        Some((_, p)) => parse_u64_field(text, len, p, ",\n  \"cpu_time_used\": "),
        None => None,
    };
    let r3 = match r2 {
        Some((_, p)) => parse_u64_field(text, len, p, ",\n  \"memory_used\": "),
        None => None,
    };
    if r3.is_some() {
        let vp1 = r1.unwrap();
        let v1 = vp1.0;
        let p1 = vp1.1;
        let vp2 = r2.unwrap();
        let v2 = vp2.0;
        let p2 = vp2.1;
        let vp3 = r3.unwrap();
        let v3 = vp3.0;
        let p3 = vp3.1;
        proof {
            let t = text@;
            crate::text::lemma_range_extend(
                t,
                0,
                p1 as int,
                p2 as int,
                "{\n  \"time_used\": "@ + dec_rep(v1 as nat),
                ",\n  \"cpu_time_used\": "@ + dec_rep(v2 as nat),
            );
            crate::text::lemma_range_extend(
                t,
                0,
                p2 as int,
                p3 as int,
                ("{\n  \"time_used\": "@ + dec_rep(v1 as nat)) + (",\n  \"cpu_time_used\": "@
                    + dec_rep(v2 as nat)),
                ",\n  \"memory_used\": "@ + dec_rep(v3 as nat),
            );
            assert(t.subrange(0, p3 as int) =~= json_head(v1, v2, v3));
            assert forall|a: u64, b: u64, c: u64, e: int|
                #![trigger json_head(a, b, c), text@.subrange(0, e)]
                (0 <= e <= len && text@.subrange(0, e) == json_head(a, b, c) && (e == len
                    || !is_dec_digit(text@[e]))) implies Some((v1, v2, v3, p3)) == Some::<
                (u64, u64, u64, usize),
            >((a, b, c, e as usize)) by {
                lemma_head_parts(text@, e, a, b, c);
            }
        }
        Some((v1, v2, v3, p3))
    } else {
        proof {
            assert forall|a: u64, b: u64, c: u64, e: int|
                #![trigger json_head(a, b, c), text@.subrange(0, e)]
                !(0 <= e <= len && text@.subrange(0, e) == json_head(a, b, c) && (e == len
                    || !is_dec_digit(text@[e]))) by {
                if 0 <= e <= len && text@.subrange(0, e) == json_head(a, b, c) && (e == len
                    || !is_dec_digit(text@[e])) {
                    lemma_head_parts(text@, e, a, b, c);
                    assert(r3 is Some);
                }
            }
        }
        None
    }
}

/// Reads the tail of the document standing at `pos`: the three signed
/// termination fields with their labels.
fn parse_codes(text: &str, len: usize, pos: usize) -> (r: Option<(i32, i32, i32, usize)>)
    requires
        len == text@.len(),
        pos <= len,
    ensures
        r matches Some(x) ==> pos <= x.3 <= len && text@.subrange(pos as int, x.3 as int)
            == json_tail(x.0, x.1, x.2) && (x.3 == len || !is_dec_digit(text@[x.3 as int])),
        forall|a: i32, b: i32, c: i32, e: int|
            #![trigger json_tail(a, b, c), text@.subrange(pos as int, e)]
            pos <= e <= len && text@.subrange(pos as int, e) == json_tail(a, b, c) && (e == len
                || !is_dec_digit(text@[e])) ==> r == Some((a, b, c, e as usize)),
{
    let r1 = parse_i32_field(text, len, pos, ",\n  \"exit_code\": ");
    let r2 = match r1 {
        Some((_, p)) => parse_i32_field(text, len, p, ",\n  \"status\": "),
        None => None,
    };
    let r3 = match r2 {
        Some((_, p)) => parse_i32_field(text, len, p, ",\n  \"signal\": "),
        None => None,
    };
    if r3.is_some() {
        let vp1 = r1.unwrap();
        let v1 = vp1.0;
        let p1 = vp1.1;
        let vp2 = r2.unwrap();
        let v2 = vp2.0;
        let p2 = vp2.1;
        let vp3 = r3.unwrap();
        let v3 = vp3.0;
        let p3 = vp3.1;
        proof {
            let t = text@;
            crate::text::lemma_range_extend(
                t,
                pos as int,
                p1 as int,
                p2 as int,
                ",\n  \"exit_code\": "@ + dec_rep_int(v1 as int),
                ",\n  \"status\": "@ + dec_rep_int(v2 as int),
            );
            crate::text::lemma_range_extend(
                t,
                pos as int,
                p2 as int,
                p3 as int,
                (",\n  \"exit_code\": "@ + dec_rep_int(v1 as int)) + (",\n  \"status\": "@
                    + dec_rep_int(v2 as int)),
                ",\n  \"signal\": "@ + dec_rep_int(v3 as int),
            );
            assert(t.subrange(pos as int, p3 as int) =~= json_tail(v1, v2, v3));
            assert forall|a: i32, b: i32, c: i32, e: int|
                #![trigger json_tail(a, b, c), text@.subrange(pos as int, e)]
                (pos <= e <= len && text@.subrange(pos as int, e) == json_tail(a, b, c) && (e == len
                    || !is_dec_digit(text@[e]))) implies Some((v1, v2, v3, p3)) == Some::<
                (i32, i32, i32, usize),
            >((a, b, c, e as usize)) by {
                lemma_tail_parts(text@, pos as int, e, a, b, c);
            }
        }
        Some((v1, v2, v3, p3))
    } else {
        proof {
            assert forall|a: i32, b: i32, c: i32, e: int|
                #![trigger json_tail(a, b, c), text@.subrange(pos as int, e)]
                !(pos <= e <= len && text@.subrange(pos as int, e) == json_tail(a, b, c) && (e
                    == len || !is_dec_digit(text@[e]))) by {
                if pos <= e <= len && text@.subrange(pos as int, e) == json_tail(a, b, c) && (e
                    == len || !is_dec_digit(text@[e])) {
                    lemma_tail_parts(text@, pos as int, e, a, b, c);
                    assert(r3 is Some);
                }
            }
        }
        None
    }
}

impl Status {
    /// Renders the record as its JSON document.
    pub fn to_json(&self) -> (r: String)
        ensures
            r@ == json_of(*self),
    {
        let mut r = String::from_str("{\n  \"time_used\": ");
        let t1 = u64_to_string(self.time_used);
        r.append(t1.as_str());
        r.append(",\n  \"cpu_time_used\": ");
        let t2 = u64_to_string(self.cpu_time_used);
        r.append(t2.as_str());
        r.append(",\n  \"memory_used\": ");
        let t3 = u64_to_string(self.memory_used);
        r.append(t3.as_str());
        r.append(",\n  \"exit_code\": ");
        let t4 = i32_to_string(self.exit_code);
        r.append(t4.as_str());
        r.append(",\n  \"status\": ");
        let t5 = i32_to_string(self.status);
        r.append(t5.as_str());
        r.append(",\n  \"signal\": ");
        let t6 = i32_to_string(self.signal);
        r.append(t6.as_str());
        r.append("\n}\n");
        proof {
            assert(r@ =~= json_of(*self));
        }
        r
    }

    /// Parses the JSON document of a record: exactly the text `to_json`
    /// writes. The second clause is the round-trip law: the document written
    /// for any record parses back to that record, so writing a record to
    /// JSON and re-parsing yields an equal record.
    #[verifier::rlimit(50)]
    pub fn from_json(text: &str) -> (r: Option<Status>)
        ensures
            r matches Some(s) ==> text@ == json_of(s),
            forall|s: Status| text@ == json_of(s) ==> r == Some(s),
    {
        let len = text.unicode_len();
        let rh = parse_counters(text, len);
        let rt = match rh {
            Some((_, _, _, p)) => parse_codes(text, len, p),
            None => None,
        };
        let rl = match rt {
            Some((_, _, _, p)) => expect_lit(text, len, p, "\n}\n"),
            None => None,
        };
        let complete = match rl {
            Some(p) => p == len,
            None => false,
        };
        if complete {
            let h = rh.unwrap();
            let v1 = h.0;
            let v2 = h.1;
            let v3 = h.2;
            let ph = h.3;
            let tl = rt.unwrap();
            let v4 = tl.0;
            let v5 = tl.1;
            let v6 = tl.2;
            let pt = tl.3;
            let pl = rl.unwrap();
            let st = Status {
                time_used: v1,
                cpu_time_used: v2,
                memory_used: v3,
                exit_code: v4,
                status: v5,
                signal: v6,
            };
            proof {
                let t = text@;
                crate::text::lemma_range_extend(
                    t,
                    0,
                    ph as int,
                    pt as int,
                    json_head(v1, v2, v3),
                    json_tail(v4, v5, v6),
                );
                crate::text::lemma_range_extend(
                    t,
                    0,
                    pt as int,
                    pl as int,
                    json_head(v1, v2, v3) + json_tail(v4, v5, v6),
                    "\n}\n"@,
                );
                assert(t.subrange(0, pl as int) =~= t);
                assert(t == json_of(st));
                assert forall|s: Status| text@ == json_of(s) implies Some(st) == Some(s) by {
                    lemma_json_split(text@, s);
                    assert(st == s);
                }
            }
            Some(st)
        } else {
            proof {
                assert forall|s: Status| text@ != json_of(s) by {
                    if text@ == json_of(s) {
                        lemma_json_split(text@, s);
                        assert(complete);
                    }
                }
            }
            None
        }
    }
}

} // verus!
