//! Strict extraction of the subscription fields from an
//! `application/x-www-form-urlencoded` body. A body is a `&`-separated list
//! of `key=value` pairs; `+` stands for a space and `%hh` for the byte with
//! hex value `hh`, in keys and values alike. Exactly the fields `email` and
//! `name` must appear, each once; anything else — a stray field, a repeated
//! one, a broken escape, a value that is not UTF-8 — rejects the body
//! before any handler logic runs.

use vstd::prelude::*;
use vstd::utf8::{decode_utf8, valid_utf8};

use crate::text::bytes_to_string;

verus! {

/// Why a request body failed extraction.
#[derive(Clone, Copy, Debug, PartialEq, Eq, Structural)]
pub enum FormError {
    /// A `%` not followed by two hex digits.
    InvalidEscape,
    /// A decoded field value that is not valid UTF-8.
    InvalidUtf8,
    /// A field other than `email` and `name`.
    UnknownField,
    /// `email` or `name` given twice.
    DuplicateField,
    /// No `email` field.
    MissingEmail,
    /// No `name` field.
    MissingName,
}

/// The two extracted fields, percent-decoded.
pub struct FormData {
    pub email: String,
    pub name: String,
}

/// The scanner's memory: the pair being decoded (its key, its value, and
/// whether the `=` between them has passed) and the fields already taken.
pub struct ScanState {
    pub key: Seq<u8>,
    pub val: Seq<u8>,
    pub seen_eq: bool,
    pub email: Option<Seq<u8>>,
    pub name: Option<Seq<u8>>,
}

/// The scanner before any input: empty current pair, no fields taken.
pub open spec fn init_state() -> ScanState {
    ScanState { key: Seq::empty(), val: Seq::empty(), seen_eq: false, email: None, name: None }
}

/// The bytes of the field name `email`.
pub open spec fn email_key() -> Seq<u8> {
    seq![101u8, 109u8, 97u8, 105u8, 108u8]
}

/// The bytes of the field name `name`.
pub open spec fn name_key() -> Seq<u8> {
    seq![110u8, 97u8, 109u8, 101u8]
}

/// A decoded byte joins the key before `=` and the value after it.
pub open spec fn push_byte(st: ScanState, b: u8) -> ScanState {
    if st.seen_eq {
        ScanState {
            key: st.key,
            val: st.val.push(b),
            seen_eq: st.seen_eq,
            email: st.email,
            name: st.name,
        }
    } else {
        ScanState {
            key: st.key.push(b),
            val: st.val,
            seen_eq: st.seen_eq,
            email: st.email,
            name: st.name,
        }
    }
}

/// Closes the current pair: an entirely empty segment is skipped, a known
/// fresh key takes its value, and anything else is the first failure.
pub open spec fn end_pair(st: ScanState) -> Result<ScanState, FormError> {
    if !st.seen_eq && st.key.len() == 0 {
        Ok(
            ScanState {
                key: Seq::empty(),
                val: Seq::empty(),
                seen_eq: false,
                email: st.email,
                name: st.name,
            },
        )
    } else if st.key == email_key() {
        if st.email is Some {
            Err(FormError::DuplicateField)
        } else {
            Ok(
                ScanState {
                    key: Seq::empty(),
                    val: Seq::empty(),
                    seen_eq: false,
                    email: Some(st.val),
                    name: st.name,
                },
            )
        }
    } else if st.key == name_key() {
        if st.name is Some {
            Err(FormError::DuplicateField)
        } else {
            Ok(
                ScanState {
                    key: Seq::empty(),
                    val: Seq::empty(),
                    seen_eq: false,
                    email: st.email,
                    name: Some(st.val),
                },
            )
        }
    } else {
        Err(FormError::UnknownField)
    }
}

/// The value of a hex digit, or nothing for any other byte.
pub open spec fn hex_digit_value(b: u8) -> Option<u8> {
    if 48 <= b && b <= 57 {
        Some((b - 48) as u8)
    } else if 65 <= b && b <= 70 {
        Some((b - 55) as u8)
    } else if 97 <= b && b <= 102 {
        Some((b - 87) as u8)
    } else {
        None
    }
}

/// After the last byte: the final pair is closed and both fields must have
/// been taken.
pub open spec fn finish(st: ScanState) -> Result<(Seq<u8>, Seq<u8>), FormError> {
    match end_pair(st) {
        Err(e) => Err(e),
        Ok(st2) => match (st2.email, st2.name) {
            (Some(e), Some(n)) => Ok((e, n)),
            (None, _) => Err(FormError::MissingEmail),
            (Some(_), None) => Err(FormError::MissingName),
        },
    }
}

/// One pass over the remaining body bytes, from the given scanner state:
/// `&` closes a pair, the first `=` of a pair starts its value, `+` decodes
/// to a space, `%hh` to a byte, and everything else stands for itself.
pub open spec fn scan(s: Seq<u8>, st: ScanState) -> Result<(Seq<u8>, Seq<u8>), FormError>
    decreases s.len(),
{
    if s.len() == 0 {
        finish(st)
    } else {
        let b = s[0];
        if b == 38 {  // `&`
            match end_pair(st) {
                Ok(st2) => scan(s.skip(1), st2),
                Err(e) => Err(e),
            }
        } else if b == 61 && !st.seen_eq {  // `=`
            scan(
                s.skip(1),
                ScanState {
                    key: st.key,
                    val: st.val,
                    seen_eq: true,
                    email: st.email,
                    name: st.name,
                },
            )
        } else if b == 43 {  // `+`
            scan(s.skip(1), push_byte(st, 32))
        } else if b == 37 {  // `%`
            if s.len() >= 3 && hex_digit_value(s[1]) is Some && hex_digit_value(s[2]) is Some {
                scan(
                    s.skip(3),
                    push_byte(
                        st,
                        (hex_digit_value(s[1]).unwrap() * 16 + hex_digit_value(s[2]).unwrap()) as u8,
                    ),
                )
            } else {
                Err(FormError::InvalidEscape)
            }
        } else {
            scan(s.skip(1), push_byte(st, b))
        }
    }
}

/// The decoded `email` and `name` byte values of a whole body, or its first
/// failure.
pub open spec fn scan_form(s: Seq<u8>) -> Result<(Seq<u8>, Seq<u8>), FormError> {
    scan(s, init_state())
}

/// What extraction makes of a body: the `email` and `name` fields as
/// character strings, or the failure that rejects the body.
pub open spec fn parse_form(s: Seq<u8>) -> Result<(Seq<char>, Seq<char>), FormError> {
    match scan_form(s) {
        Err(e) => Err(e),
        Ok((eb, nb)) => {
            if valid_utf8(eb) && valid_utf8(nb) {
                Ok((decode_utf8(eb), decode_utf8(nb)))
            } else {
                Err(FormError::InvalidUtf8)
            }
        },
    }
}

/// The value of a hex digit, executable half.
fn hex_digit(b: u8) -> (r: Option<u8>)
    ensures
        r == hex_digit_value(b),
        r matches Some(v) ==> v < 16,
{
    if 48 <= b && b <= 57 {
        Some(b - 48)
    } else if 65 <= b && b <= 70 {
        Some(b - 55)
    } else if 97 <= b && b <= 102 {
        Some(b - 87)
    } else {
        None
    }
}

/// Whether `k` spells `email`.
fn is_email_key(k: &Vec<u8>) -> (r: bool)
    ensures
        r == (k@ == email_key()),
{
    if k.len() != 5 {
        return false;
    }
    let r = k[0] == 101 && k[1] == 109 && k[2] == 97 && k[3] == 105 && k[4] == 108;
    proof {
        if r {
            assert(k@ =~= email_key());
        }
    }
    r
}

/// Whether `k` spells `name`.
fn is_name_key(k: &Vec<u8>) -> (r: bool)
    ensures
        r == (k@ == name_key()),
{
    if k.len() != 4 {
        return false;
    }
    let r = k[0] == 110 && k[1] == 97 && k[2] == 109 && k[3] == 101;
    proof {
        if r {
            assert(k@ =~= name_key());
        }
    }
    r
}

/// The view of a partly taken field.
pub open spec fn opt_bytes(o: Option<Vec<u8>>) -> Option<Seq<u8>> {
    match o {
        Some(v) => Some(v@),
        None => None,
    }
}

/// Extracts `email` and `name` from a form body. Succeeds with the decoded
/// fields exactly when the body parses; otherwise reports the parse's first
/// failure, and the caller answers 400 without any handler logic running.
#[verifier::loop_isolation(false)]
pub fn parse_form_data(body: &[u8]) -> (r: Result<FormData, FormError>)
    ensures
        r matches Ok(f) ==> parse_form(body@) == Ok::<(Seq<char>, Seq<char>), FormError>(
            (f.email@, f.name@),
        ),
        r matches Err(e) ==> parse_form(body@) == Err::<(Seq<char>, Seq<char>), FormError>(e),
{
    let mut key: Vec<u8> = Vec::new();
    let mut val: Vec<u8> = Vec::new();
    let mut seen_eq: bool = false;
    let mut email: Option<Vec<u8>> = None;
    let mut name: Option<Vec<u8>> = None;
    let mut i: usize = 0;
    proof {
        assert(body@.skip(0) =~= body@);
        assert(key@ =~= Seq::<u8>::empty());
        assert(val@ =~= Seq::<u8>::empty());
    }
    while i < body.len()
        invariant
            i <= body.len(),
            scan_form(body@) == scan(
                body@.skip(i as int),
                ScanState {
                    key: key@,
                    val: val@,
                    seen_eq: seen_eq,
                    email: opt_bytes(email),
                    name: opt_bytes(name),
                },
            ),
            !seen_eq ==> val@.len() == 0,
        decreases body.len() - i,
    {
        let ghost st = ScanState {
            key: key@,
            val: val@,
            seen_eq: seen_eq,
            email: opt_bytes(email),
            name: opt_bytes(name),
        };
        let ghost rest = body@.skip(i as int);
        proof {
            assert(rest.len() == body@.len() - i);
            assert(rest[0] == body@[i as int]);
        }
        let b = body[i];
        if b == 38 {  // `&`
            if !seen_eq && key.len() == 0 {
                // an empty segment is skipped
            } else if is_email_key(&key) {
                if email.is_some() {
                    return Err(FormError::DuplicateField);
                }
                email = Some(val);
                val = Vec::new();
            } else if is_name_key(&key) {
                if name.is_some() {
                    return Err(FormError::DuplicateField);
                }
                name = Some(val);
                val = Vec::new();
            } else {
                return Err(FormError::UnknownField);
            }
            key = Vec::new();
            seen_eq = false;
            proof {
                assert(key@ =~= Seq::<u8>::empty());
                assert(val@ =~= Seq::<u8>::empty());
                assert(end_pair(st) == Ok::<ScanState, FormError>(
                    ScanState {
                        key: key@,
                        val: val@,
                        seen_eq: seen_eq,
                        email: opt_bytes(email),
                        name: opt_bytes(name),
                    },
                ));
                assert(rest.skip(1) =~= body@.skip(i + 1));
            }
            i += 1;
        } else if b == 61 && !seen_eq {  // `=`
            seen_eq = true;
            proof {
                assert(rest.skip(1) =~= body@.skip(i + 1));
            }
            i += 1;
        } else if b == 43 {  // `+`
            if seen_eq {
                val.push(32);
            } else {
                key.push(32);
            }
            proof {
                assert(push_byte(st, 32) == ScanState {
                    key: key@,
                    val: val@,
                    seen_eq: seen_eq,
                    email: opt_bytes(email),
                    name: opt_bytes(name),
                });
                assert(rest.skip(1) =~= body@.skip(i + 1));
            }
            i += 1;
        } else if b == 37 {  // `%`
            if body.len() - i >= 3 {
                let h1 = hex_digit(body[i + 1]);
                let h2 = hex_digit(body[i + 2]);
                proof {
                    assert(rest[1] == body@[i + 1]);
                    assert(rest[2] == body@[i + 2]);
                }
                match (h1, h2) {
                    (Some(v1), Some(v2)) => {
                        let decoded = v1 * 16 + v2;
                        if seen_eq {
                            val.push(decoded);
                        } else {
                            key.push(decoded);
                        }
                        proof {
                            assert(push_byte(st, decoded) == ScanState {
                                key: key@,
                                val: val@,
                                seen_eq: seen_eq,
                                email: opt_bytes(email),
                                name: opt_bytes(name),
                            });
                            assert(rest.skip(3) =~= body@.skip(i + 3));
                        }
                        i += 3;
                    },
                    _ => {
                        return Err(FormError::InvalidEscape);
                    },
                }
            } else {
                return Err(FormError::InvalidEscape);
            }
        } else {
            if seen_eq {
                val.push(b);
            } else {
                key.push(b);
            }
            proof {
                assert(push_byte(st, b) == ScanState {
                    key: key@,
                    val: val@,
                    seen_eq: seen_eq,
                    email: opt_bytes(email),
                    name: opt_bytes(name),
                });
                assert(rest.skip(1) =~= body@.skip(i + 1));
            }
            i += 1;
        }
    }
    proof {
        assert(body@.skip(i as int) =~= Seq::<u8>::empty());
    }
    let ghost st = ScanState {
        key: key@,
        val: val@,
        seen_eq: seen_eq,
        email: opt_bytes(email),
        name: opt_bytes(name),
    };
    if !seen_eq && key.len() == 0 {
        // an empty final segment is skipped
    } else if is_email_key(&key) {
        if email.is_some() {
            return Err(FormError::DuplicateField);
        }
        email = Some(val);
    } else if is_name_key(&key) {
        if name.is_some() {
            return Err(FormError::DuplicateField);
        }
        name = Some(val);
    } else {
        return Err(FormError::UnknownField);
    }
    match (email, name) {
        (Some(eb), Some(nb)) => {
            let ghost ebs = eb@;
            let ghost nbs = nb@;
            match bytes_to_string(eb) {
                None => Err(FormError::InvalidUtf8),
                Some(email_s) => match bytes_to_string(nb) {
                    None => Err(FormError::InvalidUtf8),
                    Some(name_s) => Ok(FormData { email: email_s, name: name_s }),
                },
            }
        },
        (None, _) => Err(FormError::MissingEmail),
        (Some(_), None) => Err(FormError::MissingName),
    }
}

} // verus!
