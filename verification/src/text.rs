//! Small text building blocks the rest of the crate states its contracts
//! with: decimal rendering of integers, ASCII case folding, and the one
//! conversion from raw bytes to `String`.

use vstd::prelude::*;
use vstd::string::{StrSliceExecFns, StringExecFns};
use vstd::utf8::{decode_utf8, valid_utf8};

verus! {

/// The character for a single decimal digit.
pub open spec fn decimal_digit(d: nat) -> char {
    if d == 0 {
        '0'
    } else if d == 1 {
        '1'
    } else if d == 2 {
        '2'
    } else if d == 3 {
        '3'
    } else if d == 4 {
        '4'
    } else if d == 5 {
        '5'
    } else if d == 6 {
        '6'
    } else if d == 7 {
        '7'
    } else if d == 8 {
        '8'
    } else {
        '9'
    }
}

/// The usual decimal rendering of `n`: no sign, no leading zero except for
/// `n == 0` itself.
pub open spec fn decimal_seq(n: nat) -> Seq<char>
    decreases n,
{
    if n < 10 {
        seq![decimal_digit(n)]
    } else {
        decimal_seq(n / 10).push(decimal_digit(n % 10))
    }
}

/// A one-character string for the digit `d`.
fn digit_str(d: u16) -> (r: &'static str)
    requires
        d < 10,
    ensures
        r@ =~= seq![decimal_digit(d as nat)],
{
    proof {
        reveal_strlit("0");
        reveal_strlit("1");
        reveal_strlit("2");
        reveal_strlit("3");
        reveal_strlit("4");
        reveal_strlit("5");
        reveal_strlit("6");
        reveal_strlit("7");
        reveal_strlit("8");
        reveal_strlit("9");
    }
    match d {
        0 => "0",
        1 => "1",
        2 => "2",
        3 => "3",
        4 => "4",
        5 => "5",
        6 => "6",
        7 => "7",
        8 => "8",
        _ => "9",
    }
}

/// Renders `n` in decimal.
pub fn format_u16(n: u16) -> (r: String)
    ensures
        r@ == decimal_seq(n as nat),
    decreases n,
{
    if n < 10 {
        String::from_str(digit_str(n))
    } else {
        let mut r = format_u16(n / 10);
        r.append(digit_str(n % 10));
        proof {
            assert(r@ =~= decimal_seq((n / 10) as nat).push(decimal_digit((n % 10) as nat)));
        }
        r
    }
}

/// Renders `n` in decimal.
pub fn format_u8(n: u8) -> (r: String)
    ensures
        r@ == decimal_seq(n as nat),
{
    format_u16(n as u16)
}

/// Whether `c` is `d`, up to folding an ASCII capital in `c` to its small
/// form.
pub open spec fn char_folds_to(c: char, d: char) -> bool {
    c == d || ('A' as u32 <= c as u32 && c as u32 <= 'Z' as u32 && c as u32 + 32 == d as u32)
}

/// Whether `s` reads as `t` once ASCII capitals in `s` are folded.
pub open spec fn folds_to(s: Seq<char>, t: Seq<char>) -> bool {
    s.len() == t.len() && forall|i: int| 0 <= i < s.len() ==> char_folds_to(s[i], t[i])
}

/// Compares `s` with `t`, ignoring ASCII case in `s`.
pub fn eq_ignore_ascii_case(s: &str, t: &str) -> (r: bool)
    ensures
        r == folds_to(s@, t@),
{
    let s_len = s.unicode_len();
    let t_len = t.unicode_len();
    if s_len != t_len {
        return false;
    }
    let mut i: usize = 0;
    while i < s_len
        invariant
            i <= s_len,
            s_len == s@.len(),
            t_len == t@.len(),
            s_len == t_len,
            forall|j: int| 0 <= j < i ==> char_folds_to(s@[j], t@[j]),
        decreases s_len - i,
    {
        let sc = s.get_char(i);
        let tc = t.get_char(i);
        let sc_u = sc as u32;
        let tc_u = tc as u32;
        let same = sc == tc || (65 <= sc_u && sc_u <= 90 && sc_u + 32 == tc_u);
        if !same {
            return false;
        }
        i += 1;
    }
    true
}

/// Relies on `String::from_utf8`: returns the string read from the given
/// bytes exactly when they are valid UTF-8, and nothing otherwise.
#[verifier::external_body]
pub fn bytes_to_string(v: Vec<u8>) -> (r: Option<String>)
    ensures
        r is Some <==> valid_utf8(v@),
        r matches Some(s) ==> s@ == decode_utf8(v@),
{
    String::from_utf8(v).ok()
}

} // verus!
