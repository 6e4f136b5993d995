//! The size guard: a request is judged by the length it declares, before any
//! byte of its body is read.

use vstd::prelude::*;
use crate::error::UploadError;

verus! {

/// The largest declared request length that is let through: 10 MiB.
pub const MAX_CONTENT_LENGTH: u64 = 10 * 1024 * 1024;

/// `b` is an ASCII decimal digit.
pub open spec fn is_digit(b: u8) -> bool {
    0x30 <= b <= 0x39
}

/// Every byte of `s` is a decimal digit.
pub open spec fn all_digits(s: Seq<u8>) -> bool {
    forall|i: int| 0 <= i < s.len() ==> is_digit(#[trigger] s[i])
}

/// The number that the decimal digits `s` write, most significant first.
pub open spec fn digits_value(s: Seq<u8>) -> nat
    decreases s.len(),
{
    if s.len() == 0 {
        0
    } else {
        (digits_value(s.drop_last()) * 10 + (s.last() - 0x30)) as nat
    }
}

/// The header value without its optional leading plus sign.
pub open spec fn unsigned_part(value: Seq<u8>) -> Seq<u8> {
    if value.len() > 0 && value[0] == 0x2b {
        value.skip(1)
    } else {
        value
    }
}

/// A header value declares a length when it is one or more decimal digits,
/// optionally preceded by a plus sign.
pub open spec fn declares_length(value: Seq<u8>) -> bool {
    unsigned_part(value).len() > 0 && all_digits(unsigned_part(value))
}

/// The length that a well-formed header value declares.
pub open spec fn declared_length(value: Seq<u8>) -> nat {
    digits_value(unsigned_part(value))
}

/// What the guard decides for a request with the given `Content-Length`
/// header, if it has one.
pub open spec fn guard_outcome(header: Option<Seq<u8>>) -> Result<(), UploadError> {
    match header {
        None => Err(UploadError::MalformedRequest),
        Some(value) => if !declares_length(value) {
            Err(UploadError::MalformedRequest)
        } else if declared_length(value) > MAX_CONTENT_LENGTH {
            Err(UploadError::RequestTooLarge)
        } else {
            Ok(())
        },
    }
}

/// Appending a digit multiplies the value by ten and adds the digit.
proof fn lemma_digits_value_push(s: Seq<u8>, b: u8)
    requires
        is_digit(b),
    ensures
        digits_value(s.push(b)) == digits_value(s) * 10 + (b - 0x30),
{
    assert(s.push(b).drop_last() =~= s);
}

/// Reads the length a header value declares. Values too large for `u64` are
/// reported as `u64::MAX`, which is itself far over any ceiling.
pub fn parse_content_length(value: &[u8]) -> (parsed: Option<u64>)
    ensures
        parsed is Some <==> declares_length(value@),
        parsed matches Some(n) ==> n as nat == if declared_length(value@) <= u64::MAX {
            declared_length(value@)
        } else {
            u64::MAX as nat
        },
{
    let start: usize = if value.len() > 0 && value[0] == 0x2b { 1 } else { 0 };
    if start == value.len() {
        return None;
    }
    let ghost digits = unsigned_part(value@);
    assert(value@.skip(0) =~= value@);
    let mut total: u64 = 0;
    let mut i: usize = start;
    while i < value.len()
        invariant
            start <= i <= value.len(),
            digits == unsigned_part(value@),
            digits == value@.skip(start as int),
            all_digits(digits.take(i - start)),
            total as nat == if digits_value(digits.take(i - start)) <= u64::MAX {
                digits_value(digits.take(i - start))
            } else {
                u64::MAX as nat
            },
        decreases value.len() - i,
    {
        let b: u8 = value[i];
        if b < 0x30 || b > 0x39 {
            assert(!is_digit(digits[i - start]));
            return None;
        }
        proof {
            let before = digits.take(i - start);
            assert(digits.take(i + 1 - start) =~= before.push(b));
            lemma_digits_value_push(before, b);
        }
        let d: u64 = (b - 0x30) as u64;
        total = if total > (u64::MAX - d) / 10 {
            u64::MAX
        } else {
            total * 10 + d
        };
        i += 1;
    }
    assert(digits.take(i - start) =~= digits);
    Some(total)
}

/// The size guard. A request without a readable declared length is malformed;
/// one that declares more than [`MAX_CONTENT_LENGTH`] is too large; any other
/// passes. Only the declared length is looked at, never the body.
pub fn size_guard(header: Option<&[u8]>) -> (outcome: Result<(), UploadError>)
    ensures
        outcome == guard_outcome(
            match header {
                Some(value) => Some(value@),
                None => None,
            },
        ),
{
    match header {
        None => Err(UploadError::MalformedRequest),
        Some(value) => match parse_content_length(value) {
            None => Err(UploadError::MalformedRequest),
            Some(n) => if n > MAX_CONTENT_LENGTH {
                Err(UploadError::RequestTooLarge)
            } else {
                Ok(())
            },
        },
    }
}

} // verus!
