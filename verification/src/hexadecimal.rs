//! Bytes as hexadecimal text.

use vstd::prelude::*;

verus! {

/// The lower-case hexadecimal digit for a number under sixteen.
pub open spec fn hex_digit(n: nat) -> char {
    if n < 10 {
        (48 + n) as char
    } else {
        (87 + n) as char
    }
}

/// What a hexadecimal digit stands for, in either case.
pub open spec fn hex_value(c: char) -> Option<nat> {
    if 48 <= c as int <= 57 {
        Some((c as int - 48) as nat)
    } else if 97 <= c as int <= 102 {
        Some((c as int - 87) as nat)
    } else if 65 <= c as int <= 70 {
        Some((c as int - 55) as nat)
    } else {
        None
    }
}

/// Two lower-case digits for each byte.
pub open spec fn hex_text(b: Seq<u8>) -> Seq<char> {
    Seq::new(
        2 * b.len(),
        |i: int|
            if i % 2 == 0 {
                hex_digit((b[i / 2] / 16) as nat)
            } else {
                hex_digit((b[i / 2] % 16) as nat)
            },
    )
}

/// An even number of hexadecimal digits and nothing else.
pub open spec fn is_hex(s: Seq<char>) -> bool {
    s.len() % 2 == 0 && forall|i: int| 0 <= i < s.len() ==> hex_value(#[trigger] s[i]) is Some
}

/// The bytes that hexadecimal text stands for.
pub open spec fn hex_bytes(s: Seq<char>) -> Seq<u8> {
    Seq::new(
        s.len() / 2,
        |i: int|
            (16 * hex_value(s[2 * i]).unwrap() + hex_value(s[2 * i + 1]).unwrap()) as u8,
    )
}

/// `hex::encode` writes each byte as two lower-case digits.
#[verifier::external_body]
pub(crate) fn encode(b: &[u8]) -> (r: String)
    ensures
        r@ == hex_text(b@),
{
    hex::encode(b)
}

/// `hex::decode` takes text of an even number of digits in either case, and nothing
/// else, and gives the bytes that it stands for.
#[verifier::external_body]
pub(crate) fn decode(s: &str) -> (r: Option<Vec<u8>>)
    ensures
        r is Some <==> is_hex(s@),
        r matches Some(b) ==> b@ == hex_bytes(s@),
{
    hex::decode(s).ok()
}

/// The bytes that `s` stands for, where they are exactly `n`.
pub fn decode_exact(s: &str, n: usize) -> (r: Option<Vec<u8>>)
    ensures
        r is Some <==> is_hex(s@) && s@.len() / 2 == n,
        r matches Some(b) ==> b@ == hex_bytes(s@),
{
    match decode(s) {
        Some(b) => if b.len() == n {
            Some(b)
        } else {
            None
        },
        None => None,
    }
}

/// Reading back what was written gives the bytes that were written.
pub proof fn hex_round_trip(b: Seq<u8>)
    ensures
        is_hex(hex_text(b)),
        hex_bytes(hex_text(b)) == b,
{
    let s = hex_text(b);
    assert forall|i: int| 0 <= i < s.len() implies hex_value(#[trigger] s[i]) is Some by {
        hex_digit_round_trip((b[i / 2] / 16) as nat);
        hex_digit_round_trip((b[i / 2] % 16) as nat);
    }
    assert forall|i: int| 0 <= i < b.len() implies hex_bytes(s)[i] == b[i] by {
        assert((2 * i) / 2 == i && (2 * i + 1) / 2 == i);
        hex_digit_round_trip((b[i] / 16) as nat);
        hex_digit_round_trip((b[i] % 16) as nat);
    }
    assert(hex_bytes(s) =~= b);
}

/// A digit written and read back is the number that was written.
pub proof fn hex_digit_round_trip(n: nat)
    requires
        n < 16,
    ensures
        hex_value(hex_digit(n)) == Some(n),
{
}

} // verus!
