//! Decimal text: the canonical decimal form of the counters that the result
//! record carries, a formatter that emits it and a parser that accepts exactly
//! it. Shared by the result writer and the human-readable summaries.

use vstd::prelude::*;

verus! {

/// The character for one decimal digit.
pub open spec fn dec_digit_char(d: nat) -> char {
    if d == 0 {
        '0'
    } else if d == 1 {
        '1'
    } else if d == 2 {
        '2'
    } else if d == 3 {
        '3'
    } else if d == 4 {
        '4'
    } else if d == 5 {
        '5'
    } else if d == 6 {
        '6'
    } else if d == 7 {
        '7'
    } else if d == 8 {
        '8'
    } else {
        '9'
    }
}

/// The value of one decimal digit character; 10 marks every other character.
pub open spec fn digit_val(c: char) -> nat {
    if c == '0' {
        0
    } else if c == '1' {
        1
    } else if c == '2' {
        2
    } else if c == '3' {
        3
    } else if c == '4' {
        4
    } else if c == '5' {
        5
    } else if c == '6' {
        6
    } else if c == '7' {
        7
    } else if c == '8' {
        8
    } else if c == '9' {
        9
    } else {
        10
    }
}

pub open spec fn is_dec_digit(c: char) -> bool {
    digit_val(c) < 10
}

pub open spec fn all_digits(s: Seq<char>) -> bool {
    forall|i: int| 0 <= i < s.len() ==> is_dec_digit(#[trigger] s[i])
}

/// The canonical decimal form of a natural number: no sign, no leading zero.
pub open spec fn dec_rep(n: nat) -> Seq<char>
    decreases n,
{
    if n < 10 {
        seq![dec_digit_char(n)]
    } else {
        dec_rep(n / 10) + seq![dec_digit_char(n % 10)]
    }
}

/// The canonical decimal form of an integer: a minus sign for negatives.
pub open spec fn dec_rep_int(v: int) -> Seq<char> {
    if v < 0 {
        seq!['-'] + dec_rep((-v) as nat)
    } else {
        dec_rep(v as nat)
    }
}

/// The number a digit string denotes, most significant digit first.
pub open spec fn dec_value(s: Seq<char>) -> nat
    decreases s.len(),
{
    if s.len() == 0 {
        0
    } else {
        dec_value(s.drop_last()) * 10 + digit_val(s.last())
    }
}

/// The canonical form consists of digits, is never empty, and starts with
/// '0' exactly for zero itself.
pub proof fn lemma_dec_rep_digits(n: nat)
    ensures
        all_digits(dec_rep(n)),
        dec_rep(n).len() >= 1,
        dec_rep(n)[0] == '0' <==> n == 0,
        n == 0 ==> dec_rep(n).len() == 1,
    decreases n,
{
    if n < 10 {
        assert(dec_rep(n) == seq![dec_digit_char(n)]);
    } else {
        lemma_dec_rep_digits(n / 10);
        assert(dec_rep(n) == dec_rep(n / 10) + seq![dec_digit_char(n % 10)]);
        assert(dec_rep(n)[0] == dec_rep(n / 10)[0]);
        assert(n / 10 != 0);
    }
}

/// Reading the canonical form back gives the number it was made from.
pub proof fn lemma_dec_value_rep(n: nat)
    ensures
        dec_value(dec_rep(n)) == n,
    decreases n,
{
    if n < 10 {
        let s = dec_rep(n);
        assert(s.drop_last() =~= Seq::<char>::empty());
        assert(s.last() == dec_digit_char(n));
        assert(digit_val(dec_digit_char(n)) == n);
        assert(dec_value(s) == dec_value(s.drop_last()) * 10 + digit_val(s.last()));
    } else {
        lemma_dec_value_rep(n / 10);
        let s = dec_rep(n);
        assert(s.drop_last() =~= dec_rep(n / 10));
        assert(s.last() == dec_digit_char(n % 10));
        assert(digit_val(dec_digit_char(n % 10)) == n % 10);
        assert(n == (n / 10) * 10 + n % 10) by {
            vstd::arithmetic::div_mod::lemma_fundamental_div_mod(n as int, 10);
        }
    }
}

/// A digit string that does not start with '0' denotes a positive number.
pub proof fn lemma_dec_value_pos(s: Seq<char>)
    requires
        all_digits(s),
        s.len() >= 1,
        s[0] != '0',
    ensures
        dec_value(s) >= 1,
    decreases s.len(),
{
    if s.len() == 1 {
        assert(s.last() == s[0]);
        assert(digit_val(s[0]) >= 1);
    } else {
        assert(s.drop_last()[0] == s[0]);
        assert(all_digits(s.drop_last()));
        lemma_dec_value_pos(s.drop_last());
    }
}

/// A digit string without a leading zero is the canonical form of its value.
pub proof fn lemma_dec_rep_of_digits(s: Seq<char>)
    requires
        all_digits(s),
        s.len() >= 1,
        s[0] != '0' || s.len() == 1,
    ensures
        dec_rep(dec_value(s)) == s,
    decreases s.len(),
{
    if s.len() == 1 {
        let c = s[0];
        assert(s.last() == c);
        assert(s.drop_last() =~= Seq::<char>::empty());
        assert(dec_value(Seq::<char>::empty()) == 0);
        assert(dec_value(s) == dec_value(s.drop_last()) * 10 + digit_val(s.last()));
        assert(dec_value(s) == digit_val(c));
        assert(dec_digit_char(digit_val(c)) == c);
        assert(dec_rep(dec_value(s)) =~= s);
    } else {
        let p = s.drop_last();
        assert(p[0] == s[0]);
        assert(all_digits(p));
        lemma_dec_rep_of_digits(p);
        lemma_dec_value_pos(p);
        let v = dec_value(s);
        let m = dec_value(p);
        let d = digit_val(s.last());
        assert(v == m * 10 + d);
        assert(v >= 10) by {
            assert(m >= 1);
            assert(m * 10 >= 10) by (nonlinear_arith)
                requires m >= 1;
        }
        assert(v / 10 == m && v % 10 == d) by {
            vstd::arithmetic::div_mod::lemma_fundamental_div_mod_converse(
                v as int, 10, m as int, d as int);
        }
        assert(dec_rep(v) == dec_rep(m) + seq![dec_digit_char(d)]);
        assert(dec_digit_char(d) == s.last());
        assert(dec_rep(v) =~= s);
    }
}

/// Appending one digit multiplies the value by ten and adds the digit.
pub proof fn lemma_dec_value_push(p: Seq<char>, c: char)
    ensures
        dec_value(p.push(c)) == dec_value(p) * 10 + digit_val(c),
{
    assert(p.push(c).drop_last() =~= p);
    assert(p.push(c).last() == c);
}

/// The value of a prefix of a digit string never exceeds the whole.
pub proof fn lemma_dec_value_prefix_le(s: Seq<char>, k: int)
    requires
        0 <= k <= s.len(),
    ensures
        dec_value(s.subrange(0, k)) <= dec_value(s),
    decreases s.len() - k,
{
    if k == s.len() {
        assert(s.subrange(0, k) =~= s);
    } else {
        let p = s.subrange(0, k);
        let q = s.subrange(0, k + 1);
        assert(q =~= p.push(s[k]));
        lemma_dec_value_push(p, s[k]);
        lemma_dec_value_prefix_le(s, k + 1);
    }
}

/// Two adjacent pieces of the text make one piece.
pub proof fn lemma_range_extend(t: Seq<char>, a: int, b: int, c: int, x: Seq<char>, y: Seq<char>)
    requires
        0 <= a <= b <= c <= t.len(),
        t.subrange(a, b) == x,
        t.subrange(b, c) == y,
    ensures
        t.subrange(a, c) == x + y,
{
    assert(t.subrange(a, c) =~= x + y);
}

/// Two digit runs that start at the same place and both end at a non-digit
/// (or at the end of the text) end at the same place.
pub proof fn lemma_digit_run_unique(t: Seq<char>, pos: int, e1: int, e2: int)
    requires
        0 <= pos,
        pos <= e1 <= t.len(),
        pos <= e2 <= t.len(),
        all_digits(t.subrange(pos, e1)),
        all_digits(t.subrange(pos, e2)),
        e1 == t.len() || !is_dec_digit(t[e1]),
        e2 == t.len() || !is_dec_digit(t[e2]),
    ensures
        e1 == e2,
{
    if e1 < e2 {
        assert(t.subrange(pos, e2)[e1 - pos] == t[e1]);
        assert(is_dec_digit(t[e1]));
    } else if e2 < e1 {
        assert(t.subrange(pos, e1)[e2 - pos] == t[e2]);
        assert(is_dec_digit(t[e2]));
    }
}

/// The string for one decimal digit.
fn dec_digit_str(d: u64) -> (r: &'static str)
    requires
        d < 10,
    ensures
        r@ =~= seq![dec_digit_char(d as nat)],
{
    proof {
        reveal_strlit("0");
        reveal_strlit("1");
        reveal_strlit("2");
        reveal_strlit("3");
        reveal_strlit("4");
        reveal_strlit("5");
        reveal_strlit("6");
        reveal_strlit("7");
        reveal_strlit("8");
        reveal_strlit("9");
    }
    if d == 0 {
        "0"
    } else if d == 1 {
        "1"
    } else if d == 2 {
        "2"
    } else if d == 3 {
        "3"
    } else if d == 4 {
        "4"
    } else if d == 5 {
        "5"
    } else if d == 6 {
        "6"
    } else if d == 7 {
        "7"
    } else if d == 8 {
        "8"
    } else {
        "9"
    }
}

/// Renders a number in its canonical decimal form.
pub fn u64_to_string(n: u64) -> (r: String)
    ensures
        r@ == dec_rep(n as nat),
    decreases n,
{
    if n < 10 {
        let r = String::from_str(dec_digit_str(n));
        proof {
            assert(r@ =~= dec_rep(n as nat));
        }
        r
    } else {
        let mut s = u64_to_string(n / 10);
        s.append(dec_digit_str(n % 10));
        proof {
            assert(s@ =~= dec_rep(n as nat));
        }
        s
    }
}

/// The numeric value of one character, 10 for every non-digit.
fn digit_value_exec(c: char) -> (v: u64)
    ensures
        v == digit_val(c),
{
    if c == '0' {
        0
    } else if c == '1' {
        1
    } else if c == '2' {
        2
    } else if c == '3' {
        3
    } else if c == '4' {
        4
    } else if c == '5' {
        5
    } else if c == '6' {
        6
    } else if c == '7' {
        7
    } else if c == '8' {
        8
    } else if c == '9' {
        9
    } else {
        10
    }
}

/// Whether `text` continues with exactly `lit` at position `pos`; on success
/// the returned position is just past the match.
pub fn expect_lit(text: &str, len: usize, pos: usize, lit: &str) -> (r: Option<usize>)
    requires
        len == text@.len(),
        pos <= len,
    ensures
        r matches Some(p) ==> pos + lit@.len() == p && p <= len && text@.subrange(
            pos as int,
            p as int,
        ) == lit@,
        pos + lit@.len() <= len && text@.subrange(pos as int, pos + lit@.len()) == lit@
            ==> r is Some,
{
    let ll = lit.unicode_len();
    if len - pos < ll {
        return None;
    }
    let mut i: usize = 0;
    while i < ll
        invariant
            len == text@.len(),
            pos <= len,
            ll == lit@.len(),
            pos + ll <= len,
            i <= ll,
            forall|j: int| 0 <= j < i ==> text@[pos + j] == lit@[j],
        decreases ll - i,
    {
        let a = text.get_char(pos + i);
        let b = lit.get_char(i);
        if a != b {
            proof {
                if text@.subrange(pos as int, pos + ll as int) == lit@ {
                    assert(text@.subrange(pos as int, pos + ll as int)[i as int] == text@[pos
                        + i]);
                }
            }
            return None;
        }
        i += 1;
    }
    proof {
        assert(text@.subrange(pos as int, pos + ll as int) =~= lit@);
    }
    Some(pos + ll)
}

/// Reads the canonical decimal number that starts at `pos`: a digit run with
/// no redundant leading zero, ending at the first non-digit. Returns the value
/// and the position just past it; `None` when no such number starts there.
pub fn parse_u64_at(text: &str, len: usize, pos: usize) -> (r: Option<(u64, usize)>)
    requires
        len == text@.len(),
        pos <= len,
    ensures
        r matches Some(np) ==> pos < np.1 <= len && text@.subrange(pos as int, np.1 as int)
            == dec_rep(np.0 as nat) && (np.1 == len || !is_dec_digit(text@[np.1 as int])),
        forall|n: u64, e: int|
            #![trigger dec_rep(n as nat), text@.subrange(pos as int, e)]
            pos + dec_rep(n as nat).len() == e && e <= len && text@.subrange(pos as int, e)
                == dec_rep(n as nat) && (e == len || !is_dec_digit(text@[e])) ==> r == Some(
                (n, e as usize),
            ),
{
    if pos == len {
        proof {
            assert forall|n: u64, e: int|
                #![trigger dec_rep(n as nat), text@.subrange(pos as int, e)]
                !(pos + dec_rep(n as nat).len() == e && e <= len && text@.subrange(pos as int, e)
                    == dec_rep(n as nat) && (e == len || !is_dec_digit(text@[e]))) by {
                lemma_dec_rep_digits(n as nat);
            }
        }
        return None;
    }
    let c0 = text.get_char(pos);
    let v0 = digit_value_exec(c0);
    if v0 >= 10 {
        proof {
            assert forall|n: u64, e: int|
                #![trigger dec_rep(n as nat), text@.subrange(pos as int, e)]
                !(pos + dec_rep(n as nat).len() == e && e <= len && text@.subrange(pos as int, e)
                    == dec_rep(n as nat) && (e == len || !is_dec_digit(text@[e]))) by {
                lemma_dec_rep_digits(n as nat);
                if pos + dec_rep(n as nat).len() == e && e <= len && text@.subrange(pos as int, e)
                    == dec_rep(n as nat) {
                    assert(text@.subrange(pos as int, e)[0] == text@[pos as int]);
                }
            }
        }
        return None;
    }
    if c0 == '0' {
        if pos + 1 < len {
            let c1 = text.get_char(pos + 1);
            let v1 = digit_value_exec(c1);
            if v1 < 10 {
                proof {
                    assert forall|n: u64, e: int|
                        #![trigger dec_rep(n as nat), text@.subrange(pos as int, e)]
                        !(pos + dec_rep(n as nat).len() == e && e <= len && text@.subrange(
                            pos as int,
                            e,
                        ) == dec_rep(n as nat) && (e == len || !is_dec_digit(text@[e]))) by {
                        lemma_dec_rep_digits(n as nat);
                        if pos + dec_rep(n as nat).len() == e && e <= len && text@.subrange(
                            pos as int,
                            e,
                        ) == dec_rep(n as nat) && (e == len || !is_dec_digit(text@[e])) {
                            assert(text@.subrange(pos as int, e)[0] == text@[pos as int]);
                            // the run starts with '0', so it is the one-digit run of zero
                            assert(n == 0);
                            assert(e == pos + 1);
                            assert(is_dec_digit(text@[e]));
                        }
                    }
                }
                return None;
            }
        }
        proof {
            assert(text@.subrange(pos as int, pos + 1 as int) =~= seq!['0']);
            assert(dec_rep(0) =~= seq!['0']);
            assert forall|n: u64, e: int|
                #![trigger dec_rep(n as nat), text@.subrange(pos as int, e)]
                (pos + dec_rep(n as nat).len() == e && e <= len && text@.subrange(pos as int, e)
                    == dec_rep(n as nat) && (e == len || !is_dec_digit(text@[e]))) implies Some(
                (0u64, (pos + 1) as usize),
            ) == Some::<(u64, usize)>((n, e as usize)) by {
                lemma_dec_rep_digits(n as nat);
                lemma_digit_run_unique(text@, pos as int, pos + 1, e);
                assert(text@.subrange(pos as int, e) =~= seq!['0']);
                assert(dec_rep(n as nat)[0] == '0');
                assert(n == 0);
            }
        }
        return Some((0, pos + 1));
    }
    // a nonzero leading digit: read the digit run left to right
    let mut acc: u64 = v0;
    let mut p: usize = pos + 1;
    let mut done: bool = false;
    let mut over: bool = false;
    proof {
        assert(text@.subrange(pos as int, pos + 1 as int) =~= seq![c0]);
        assert(seq![c0].drop_last() =~= Seq::<char>::empty());
        assert(seq![c0].last() == c0);
        assert(dec_value(Seq::<char>::empty()) == 0);
        assert(dec_value(seq![c0]) == dec_value(seq![c0].drop_last()) * 10 + digit_val(
            seq![c0].last(),
        ));
        assert(dec_value(seq![c0]) == digit_val(c0));
    }
    while !done
        invariant
            len == text@.len(),
            pos < p <= len,
            all_digits(text@.subrange(pos as int, p as int)),
            is_dec_digit(text@[pos as int]),
            text@[pos as int] != '0',
            !over ==> acc as nat == dec_value(text@.subrange(pos as int, p as int)),
            over ==> done,
            over ==> p < len && is_dec_digit(text@[p as int]) && dec_value(
                text@.subrange(pos as int, p as int).push(text@[p as int]),
            ) > u64::MAX,
            done && !over ==> p == len || !is_dec_digit(text@[p as int]),
        decreases len - p + (if done { 0int } else { 1int }),
    {
        if p == len {
            done = true;
        } else {
            let c = text.get_char(p);
            let v = digit_value_exec(c);
            if v >= 10 {
                done = true;
            } else {
                proof {
                    lemma_dec_value_push(text@.subrange(pos as int, p as int), c);
                }
                match acc.checked_mul(10) {
                    Some(m) => {
                        match m.checked_add(v) {
                            Some(s2) => {
                                proof {
                                    assert(text@.subrange(pos as int, p + 1 as int)
                                        =~= text@.subrange(pos as int, p as int).push(
                                        text@[p as int],
                                    ));
                                }
                                acc = s2;
                                p = p + 1;
                            },
                            None => {
                                over = true;
                                done = true;
                            },
                        }
                    },
                    None => {
                        over = true;
                        done = true;
                    },
                }
            }
        }
    }
    if over {
        proof {
            assert forall|n: u64, e: int|
                #![trigger dec_rep(n as nat), text@.subrange(pos as int, e)]
                !(pos + dec_rep(n as nat).len() == e && e <= len && text@.subrange(pos as int, e)
                    == dec_rep(n as nat) && (e == len || !is_dec_digit(text@[e]))) by {
                if pos + dec_rep(n as nat).len() == e && e <= len && text@.subrange(pos as int, e)
                    == dec_rep(n as nat) && (e == len || !is_dec_digit(text@[e])) {
                    lemma_dec_rep_digits(n as nat);
                    lemma_dec_value_rep(n as nat);
                    // the parser stopped inside the digit run of n: p + 1 <= e
                    if e <= p {
                        assert(text@.subrange(pos as int, p + 1 as int)[e - pos] == text@[e]);
                        assert(all_digits(text@.subrange(pos as int, p as int)));
                        assert(is_dec_digit(text@[e]));
                        assert(false);
                    }
                    // the prefix read so far, extended by one digit, stays within n
                    let run = text@.subrange(pos as int, e);
                    let k = p + 1 - pos;
                    assert(run.subrange(0, k) =~= text@.subrange(pos as int, p + 1 as int));
                    assert(text@.subrange(pos as int, p + 1 as int) =~= text@.subrange(
                        pos as int,
                        p as int,
                    ).push(text@[p as int]));
                    lemma_dec_value_prefix_le(run, k);
                    assert(dec_value(run.subrange(0, k)) <= n as nat);
                    assert(false);
                }
            }
        }
        return None;
    }
    proof {
        let run = text@.subrange(pos as int, p as int);
        assert(run[0] == text@[pos as int]);
        lemma_dec_rep_of_digits(run);
        assert forall|n: u64, e: int|
            #![trigger dec_rep(n as nat), text@.subrange(pos as int, e)]
            (pos + dec_rep(n as nat).len() == e && e <= len && text@.subrange(pos as int, e)
                == dec_rep(n as nat) && (e == len || !is_dec_digit(text@[e]))) implies Some(
            (acc, p),
        ) == Some::<(u64, usize)>((n, e as usize)) by {
            lemma_dec_rep_digits(n as nat);
            lemma_digit_run_unique(text@, pos as int, p as int, e);
            lemma_dec_value_rep(n as nat);
            assert(text@.subrange(pos as int, e) == run);
            assert(dec_value(dec_rep(n as nat)) == dec_value(run));
        }
    }
    Some((acc, p))
}

/// Reads the canonical decimal form of a signed 32-bit number that starts at
/// `pos`: an optional minus sign (never "-0") followed by a digit run.
pub fn parse_i32_at(text: &str, len: usize, pos: usize) -> (r: Option<(i32, usize)>)
    requires
        len == text@.len(),
        pos <= len,
    ensures
        r matches Some(np) ==> pos < np.1 <= len && text@.subrange(pos as int, np.1 as int)
            == dec_rep_int(np.0 as int) && (np.1 == len || !is_dec_digit(text@[np.1 as int])),
        forall|n: i32, e: int|
            #![trigger dec_rep_int(n as int), text@.subrange(pos as int, e)]
            pos + dec_rep_int(n as int).len() == e && e <= len && text@.subrange(pos as int, e)
                == dec_rep_int(n as int) && (e == len || !is_dec_digit(text@[e])) ==> r == Some(
                (n, e as usize),
            ),
{
    let negative = pos < len && text.get_char(pos) == '-';
    if negative {
        let ru = parse_u64_at(text, len, pos + 1);
        proof {
            // a negative candidate leaves its magnitude's run right after the sign
            assert forall|n: i32, e: int|
                #![trigger dec_rep_int(n as int), text@.subrange(pos as int, e)]
                (pos + dec_rep_int(n as int).len() == e && e <= len && text@.subrange(
                    pos as int,
                    e,
                ) == dec_rep_int(n as int) && (e == len || !is_dec_digit(text@[e])) && n
                    < 0) implies ru == Some((((-(n as int)) as u64), e as usize)) by {
                let m: u64 = (-(n as int)) as u64;
                assert(dec_rep_int(n as int) == seq!['-'] + dec_rep(m as nat));
                assert(text@.subrange(pos + 1, e) =~= text@.subrange(pos as int, e).subrange(
                    1,
                    e - pos,
                ));
                assert((seq!['-'] + dec_rep(m as nat)).subrange(1, e - pos) =~= dec_rep(m as nat));
                assert(text@.subrange(pos + 1, e) == dec_rep(m as nat));
            }
            // a nonnegative candidate would start with a digit, not the sign
            assert forall|n: i32, e: int|
                #![trigger dec_rep_int(n as int), text@.subrange(pos as int, e)]
                (pos + dec_rep_int(n as int).len() == e && e <= len && text@.subrange(
                    pos as int,
                    e,
                ) == dec_rep_int(n as int) && (e == len || !is_dec_digit(text@[e]))) implies n
                < 0 by {
                lemma_dec_rep_digits(n as nat);
                if n >= 0 {
                    assert(text@.subrange(pos as int, e)[0] == text@[pos as int]);
                    assert(is_dec_digit('-'));
                }
            }
        }
        match ru {
            Some((m, p)) => {
                if 1 <= m && m <= 2147483648 {
                    let val: i32 = if m == 2147483648 {
                        i32::MIN
                    } else {
                        -(m as i32)
                    };
                    proof {
                        assert(val as int == -(m as int));
                        assert(text@.subrange(pos as int, p as int) =~= seq!['-'] + text@.subrange(
                            pos + 1,
                            p as int,
                        ));
                        assert(text@.subrange(pos as int, p as int) == dec_rep_int(val as int));
                    }
                    Some((val, p))
                } else {
                    None
                }
            },
            None => None,
        }
    } else {
        let ru = parse_u64_at(text, len, pos);
        proof {
            // a negative candidate is impossible here: no sign at `pos`
            assert forall|n: i32, e: int|
                #![trigger dec_rep_int(n as int), text@.subrange(pos as int, e)]
                (pos + dec_rep_int(n as int).len() == e && e <= len && text@.subrange(
                    pos as int,
                    e,
                ) == dec_rep_int(n as int) && (e == len || !is_dec_digit(text@[e]))) implies n
                >= 0 && text@.subrange(pos as int, e) == dec_rep((n as int) as nat) by {
                if n < 0 {
                    assert(dec_rep_int(n as int) == seq!['-'] + dec_rep((-(n as int)) as nat));
                    assert(text@.subrange(pos as int, e)[0] == text@[pos as int]);
                    assert(text@[pos as int] == '-');
                }
            }
        }
        match ru {
            Some((m, p)) => {
                if m <= 2147483647 {
                    proof {
                        assert(dec_rep_int((m as i32) as int) == dec_rep(m as nat));
                    }
                    Some((m as i32, p))
                } else {
                    proof {
                        assert forall|n: i32, e: int|
                            #![trigger dec_rep_int(n as int), text@.subrange(pos as int, e)]
                            !(pos + dec_rep_int(n as int).len() == e && e <= len && text@.subrange(
                                pos as int,
                                e,
                            ) == dec_rep_int(n as int) && (e == len || !is_dec_digit(
                                text@[e],
                            ))) by {
                            if pos + dec_rep_int(n as int).len() == e && e <= len && text@.subrange(
                                pos as int,
                                e,
                            ) == dec_rep_int(n as int) && (e == len || !is_dec_digit(text@[e])) {
                                assert(n >= 0);
                                assert(text@.subrange(pos as int, e) == dec_rep(n as nat));
                                assert(ru == Some((n as u64, e as usize)));
                            }
                        }
                    }
                    None
                }
            },
            None => None,
        }
    }
}

/// Reads one labelled unsigned field: the label `lit` followed by a canonical
/// decimal number ending at the first non-digit.
pub fn parse_u64_field(text: &str, len: usize, pos: usize, lit: &str) -> (r: Option<(u64, usize)>)
    requires
        len == text@.len(),
        pos <= len,
    ensures
        r matches Some(vp) ==> pos <= vp.1 <= len && text@.subrange(pos as int, vp.1 as int)
            == lit@ + dec_rep(vp.0 as nat) && (vp.1 == len || !is_dec_digit(text@[vp.1 as int])),
        forall|n: u64, e: int|
            #![trigger dec_rep(n as nat), text@.subrange(pos as int, e)]
            pos + lit@.len() + dec_rep(n as nat).len() == e && e <= len && text@.subrange(
                pos as int,
                e,
            ) == lit@ + dec_rep(n as nat) && (e == len || !is_dec_digit(text@[e])) ==> r == Some(
                (n, e as usize),
            ),
{
    let r1 = expect_lit(text, len, pos, lit);
    match r1 {
        Some(p) => {
            let ru = parse_u64_at(text, len, p);
            proof {
                assert forall|n: u64, e: int|
                    #![trigger dec_rep(n as nat), text@.subrange(pos as int, e)]
                    (pos + lit@.len() + dec_rep(n as nat).len() == e && e <= len && text@.subrange(
                        pos as int,
                        e,
                    ) == lit@ + dec_rep(n as nat) && (e == len || !is_dec_digit(
                        text@[e],
                    ))) implies ru == Some((n, e as usize)) by {
                    assert forall|j: int| 0 <= j < e - p implies text@.subrange(
                        p as int,
                        e,
                    )[j] == dec_rep(n as nat)[j] by {
                        assert(text@.subrange(pos as int, e)[j + lit@.len()] == (lit@ + dec_rep(
                            n as nat,
                        ))[j + lit@.len()]);
                        assert(text@.subrange(pos as int, e)[j + lit@.len()] == text@[pos + j
                            + lit@.len()]);
                    }
                    assert(text@.subrange(p as int, e) =~= dec_rep(n as nat));
                }
            }
            match ru {
                Some((v, q)) => {
                    proof {
                        assert(text@.subrange(pos as int, q as int) =~= lit@ + dec_rep(v as nat));
                    }
                    Some((v, q))
                },
                None => None,
            }
        },
        None => {
            proof {
                assert forall|n: u64, e: int|
                    #![trigger dec_rep(n as nat), text@.subrange(pos as int, e)]
                    !(pos + lit@.len() + dec_rep(n as nat).len() == e && e <= len && text@.subrange(
                        pos as int,
                        e,
                    ) == lit@ + dec_rep(n as nat) && (e == len || !is_dec_digit(text@[e]))) by {
                    if pos + lit@.len() + dec_rep(n as nat).len() == e && e <= len && text@.subrange(
                        pos as int,
                        e,
                    ) == lit@ + dec_rep(n as nat) && (e == len || !is_dec_digit(text@[e])) {
                        assert forall|j: int| 0 <= j < lit@.len() implies text@.subrange(
                            pos as int,
                            pos + lit@.len(),
                        )[j] == lit@[j] by {
                            assert(text@.subrange(pos as int, e)[j] == (lit@ + dec_rep(
                                n as nat,
                            ))[j]);
                            assert(text@.subrange(pos as int, e)[j] == text@[pos + j]);
                        }
                        assert(text@.subrange(pos as int, pos + lit@.len()) =~= lit@);
                    }
                }
            }
            None
        },
    }
}

/// Reads one labelled signed field: the label `lit` followed by a canonical
/// signed decimal number ending at the first non-digit.
pub fn parse_i32_field(text: &str, len: usize, pos: usize, lit: &str) -> (r: Option<(i32, usize)>)
    requires
        len == text@.len(),
        pos <= len,
    ensures
        r matches Some(vp) ==> pos <= vp.1 <= len && text@.subrange(pos as int, vp.1 as int)
            == lit@ + dec_rep_int(vp.0 as int) && (vp.1 == len || !is_dec_digit(
            text@[vp.1 as int],
        )),
        forall|n: i32, e: int|
            #![trigger dec_rep_int(n as int), text@.subrange(pos as int, e)]
            pos + lit@.len() + dec_rep_int(n as int).len() == e && e <= len && text@.subrange(
                pos as int,
                e,
            ) == lit@ + dec_rep_int(n as int) && (e == len || !is_dec_digit(text@[e])) ==> r
                == Some((n, e as usize)),
{
    let r1 = expect_lit(text, len, pos, lit);
    match r1 {
        Some(p) => {
            let ru = parse_i32_at(text, len, p);
            proof {
                assert forall|n: i32, e: int|
                    #![trigger dec_rep_int(n as int), text@.subrange(pos as int, e)]
                    (pos + lit@.len() + dec_rep_int(n as int).len() == e && e <= len
                        && text@.subrange(pos as int, e) == lit@ + dec_rep_int(n as int) && (e
                        == len || !is_dec_digit(text@[e]))) implies ru == Some((n, e as usize)) by {
                    assert forall|j: int| 0 <= j < e - p implies text@.subrange(
                        p as int,
                        e,
                    )[j] == dec_rep_int(n as int)[j] by {
                        assert(text@.subrange(pos as int, e)[j + lit@.len()] == (lit@ + dec_rep_int(
                            n as int,
                        ))[j + lit@.len()]);
                        assert(text@.subrange(pos as int, e)[j + lit@.len()] == text@[pos + j
                            + lit@.len()]);
                    }
                    assert(text@.subrange(p as int, e) =~= dec_rep_int(n as int));
                }
            }
            match ru {
                Some((v, q)) => {
                    proof {
                        assert(text@.subrange(pos as int, q as int) =~= lit@ + dec_rep_int(
                            v as int,
                        ));
                    }
                    Some((v, q))
                },
                None => None,
            }
        },
        None => {
            proof {
                assert forall|n: i32, e: int|
                    #![trigger dec_rep_int(n as int), text@.subrange(pos as int, e)]
                    !(pos + lit@.len() + dec_rep_int(n as int).len() == e && e <= len
                        && text@.subrange(pos as int, e) == lit@ + dec_rep_int(n as int) && (e
                        == len || !is_dec_digit(text@[e]))) by {
                    if pos + lit@.len() + dec_rep_int(n as int).len() == e && e <= len
                        && text@.subrange(pos as int, e) == lit@ + dec_rep_int(n as int) && (e
                        == len || !is_dec_digit(text@[e])) {
                        assert forall|j: int| 0 <= j < lit@.len() implies text@.subrange(
                            pos as int,
                            pos + lit@.len(),
                        )[j] == lit@[j] by {
                            assert(text@.subrange(pos as int, e)[j] == (lit@ + dec_rep_int(
                                n as int,
                            ))[j]);
                            assert(text@.subrange(pos as int, e)[j] == text@[pos + j]);
                        }
                        assert(text@.subrange(pos as int, pos + lit@.len()) =~= lit@);
                    }
                }
            }
            None
        },
    }
}

/// Renders a signed number in its canonical decimal form.
pub fn i32_to_string(v: i32) -> (r: String)
    ensures
        r@ == dec_rep_int(v as int),
{
    if v >= 0 {
        u64_to_string(v as u64)
    } else {
        let mut s = String::from_str("-");
        let mag: u64 = (-(v as i64)) as u64;
        let tail = u64_to_string(mag);
        s.append(tail.as_str());
        proof {
            reveal_strlit("-");
            assert(s@ =~= dec_rep_int(v as int));
        }
        s
    }
}

/// The Unicode white-space characters, as the standard splitter sees them.
pub open spec fn is_ws(c: char) -> bool {
    c == ' ' || c == '\t' || c == '\n' || c == '\u{b}' || c == '\u{c}' || c == '\r' || c == '\u{85}'
        || c == '\u{a0}' || c == '\u{1680}' || c == '\u{2000}' || c == '\u{2001}' || c == '\u{2002}'
        || c == '\u{2003}' || c == '\u{2004}' || c == '\u{2005}' || c == '\u{2006}' || c
        == '\u{2007}' || c == '\u{2008}' || c == '\u{2009}' || c == '\u{200a}' || c == '\u{2028}'
        || c == '\u{2029}' || c == '\u{202f}' || c == '\u{205f}' || c == '\u{3000}'
}

/// Whether `c` is white space.
pub fn is_ws_char(c: char) -> (r: bool)
    ensures
        r == is_ws(c),
{
    c == ' ' || c == '\t' || c == '\n' || c == '\u{b}' || c == '\u{c}' || c == '\r' || c == '\u{85}'
        || c == '\u{a0}' || c == '\u{1680}' || c == '\u{2000}' || c == '\u{2001}' || c == '\u{2002}'
        || c == '\u{2003}' || c == '\u{2004}' || c == '\u{2005}' || c == '\u{2006}' || c
        == '\u{2007}' || c == '\u{2008}' || c == '\u{2009}' || c == '\u{200a}' || c == '\u{2028}'
        || c == '\u{2029}' || c == '\u{202f}' || c == '\u{205f}' || c == '\u{3000}'
}

/// Length of the maximal run of non-white-space at the front of `s`.
pub open spec fn token_len(s: Seq<char>) -> nat
    decreases s.len(),
{
    if s.len() == 0 || is_ws(s[0]) {
        0
    } else {
        1 + token_len(s.drop_first())
    }
}

/// The front token never reaches past the end of the text.
pub proof fn lemma_token_len_le(s: Seq<char>)
    ensures
        token_len(s) <= s.len(),
    decreases s.len(),
{
    if s.len() != 0 && !is_ws(s[0]) {
        lemma_token_len_le(s.drop_first());
    }
}

/// The words of `s`: its maximal runs of non-white-space, in order.
pub open spec fn split_ws(s: Seq<char>) -> Seq<Seq<char>>
    decreases s.len(),
    via split_ws_decreases
{
    if s.len() == 0 {
        Seq::empty()
    } else if is_ws(s[0]) {
        split_ws(s.drop_first())
    } else {
        seq![s.take(token_len(s) as int)] + split_ws(s.skip(token_len(s) as int))
    }
}

#[via_fn]
proof fn split_ws_decreases(s: Seq<char>) {
    lemma_token_len_le(s);
}

/// Position just past the token that starts at `pos`.
fn token_end(text: &str, len: usize, pos: usize) -> (r: usize)
    requires
        len == text@.len(),
        pos <= len,
    ensures
        pos <= r <= len,
        r - pos == token_len(text@.skip(pos as int)),
    decreases len - pos,
{
    proof {
        lemma_token_len_le(text@.skip(pos as int));
    }
    if pos == len {
        proof {
            assert(text@.skip(pos as int) =~= Seq::<char>::empty());
        }
        pos
    } else {
        proof {
            assert(text@.skip(pos as int)[0] == text@[pos as int]);
        }
        let c = text.get_char(pos);
        if is_ws_char(c) {
            pos
        } else {
            let e = token_end(text, len, pos + 1);
            proof {
                assert(text@.skip(pos as int).drop_first() =~= text@.skip(pos + 1));
            }
            e
        }
    }
}

/// Splits `text` into its white-space-separated words, from `pos` on.
fn split_from(text: &str, len: usize, pos: usize) -> (r: Vec<String>)
    requires
        len == text@.len(),
        pos <= len,
    ensures
        r.deep_view() == split_ws(text@.skip(pos as int)),
    decreases len - pos,
{
    if pos == len {
        let r: Vec<String> = Vec::new();
        proof {
            assert(text@.skip(pos as int) =~= Seq::<char>::empty());
            assert(r.deep_view() =~= Seq::<Seq<char>>::empty());
        }
        r
    } else {
        proof {
            assert(text@.skip(pos as int)[0] == text@[pos as int]);
        }
        let c = text.get_char(pos);
        if is_ws_char(c) {
            let r = split_from(text, len, pos + 1);
            proof {
                assert(text@.skip(pos as int).drop_first() =~= text@.skip(pos + 1));
            }
            r
        } else {
            let e = token_end(text, len, pos);
            proof {
                assert(e > pos) by {
                    assert(token_len(text@.skip(pos as int)) >= 1);
                }
            }
            let tok: String = text.substring_char(pos, e).to_owned();
            let mut rest = split_from(text, len, e);
            rest.insert(0, tok);
            proof {
                let s0 = text@.skip(pos as int);
                assert(s0.take(token_len(s0) as int) =~= text@.subrange(pos as int, e as int));
                assert(s0.skip(token_len(s0) as int) =~= text@.skip(e as int));
                assert(rest.deep_view() =~= seq![text@.subrange(pos as int, e as int)] + split_ws(
                    text@.skip(e as int),
                ));
            }
            rest
        }
    }
}

/// Splits `text` into its white-space-separated words.
pub fn split_whitespace_vec(text: &str) -> (r: Vec<String>)
    ensures
        r.deep_view() == split_ws(text@),
{
    let len = text.unicode_len();
    let r = split_from(text, len, 0);
    proof {
        assert(text@.skip(0) =~= text@);
    }
    r
}

/// The words of `parts` joined with single spaces.
pub open spec fn join_sp(parts: Seq<Seq<char>>) -> Seq<char>
    decreases parts.len(),
{
    if parts.len() == 0 {
        Seq::empty()
    } else if parts.len() == 1 {
        parts[0]
    } else {
        join_sp(parts.drop_last()) + seq![' '] + parts.last()
    }
}

/// Joins words with single spaces.
pub fn join_spaces(parts: &Vec<String>) -> (r: String)
    ensures
        r@ == join_sp(parts.deep_view()),
{
    let ghost dv = parts.deep_view();
    let mut s = String::new();
    let mut i: usize = 0;
    while i < parts.len()
        invariant
            i <= parts.len(),
            dv == parts.deep_view(),
            dv.len() == parts@.len(),
            s@ == join_sp(dv.take(i as int)),
        decreases parts.len() - i,
    {
        proof {
            reveal_strlit(" ");
            assert(dv.take(i + 1).drop_last() =~= dv.take(i as int));
            assert(dv.take(i + 1).last() == dv[i as int]);
            assert(dv[i as int] == parts@[i as int]@);
        }
        if i > 0 {
            s.append(" ");
        } else {
            proof {
                assert(dv.take(1)[0] == dv[0]);
            }
        }
        s.append(parts[i].as_str());
        i += 1;
    }
    proof {
        assert(dv.take(parts@.len() as int) =~= dv);
    }
    s
}

} // verus!
