//! Hex text as byte sequences: a concrete specification, and trusted
//! wrappers over the `hex` crate that meet it.

use vstd::prelude::*;

verus! {

/// The value of one ASCII hex digit code, upper or lower case.
pub open spec fn hex_digit_val(b: u8) -> Option<u8> {
    if 48 <= b <= 57 {
        Some((b - 48) as u8)
    } else if 97 <= b <= 102 {
        Some((b - 87) as u8)
    } else if 65 <= b <= 70 {
        Some((b - 55) as u8)
    } else {
        None
    }
}

/// The lowercase ASCII code for one nibble value.
pub open spec fn hex_nibble_char(d: u8) -> u8
    recommends
        d < 16,
{
    if d < 10 {
        (48 + d) as u8
    } else {
        (87 + d) as u8
    }
}

/// The lowercase hex rendering of `b`, as ASCII codes, two per byte.
pub open spec fn hex_bytes_of(b: Seq<u8>) -> Seq<u8>
    decreases b.len(),
{
    if b.len() == 0 {
        Seq::empty()
    } else {
        seq![hex_nibble_char(b.first() / 16), hex_nibble_char(b.first() % 16)]
            + hex_bytes_of(b.drop_first())
    }
}

/// The bytes that hex text denotes: defined exactly when the text has even
/// length and every code is a hex digit, upper or lower case.
pub open spec fn spec_hex_decode(s: Seq<u8>) -> Option<Seq<u8>>
    decreases s.len(),
{
    if s.len() == 0 {
        Some(Seq::empty())
    } else if s.len() == 1 {
        None
    } else {
        match (hex_digit_val(s[0]), hex_digit_val(s[1])) {
            (Some(h), Some(l)) => match spec_hex_decode(s.skip(2)) {
                Some(rest) => Some(seq![(16 * h + l) as u8] + rest),
                None => None,
            },
            _ => None,
        }
    }
}

/// Relies on `hex::encode`: every byte becomes two lowercase hex digits, in
/// order.
#[verifier::external_body]
pub(crate) fn hex_encode_bytes(b: &[u8]) -> (r: Vec<u8>)
    ensures
        r@ == hex_bytes_of(b@),
{
    hex::encode(b).into_bytes()
}

/// Relies on `hex::decode`: it succeeds exactly on even-length input made of
/// hex digit characters (either case), pairing the digits into bytes.
#[verifier::external_body]
pub(crate) fn hex_decode_bytes(s: &[u8]) -> (r: Option<Vec<u8>>)
    ensures
        r is Some <==> spec_hex_decode(s@) is Some,
        r matches Some(v) ==> Some(v@) == spec_hex_decode(s@),
{
    hex::decode(s).ok()
}

} // verus!
