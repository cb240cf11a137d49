//! Decimal formatting of the integers that challenge messages embed.

use vstd::prelude::*;

verus! {

/// The character for one decimal digit value.
pub open spec fn digit_char(d: int) -> char
    recommends
        0 <= d < 10,
{
    ((48 + d) as u8) as char
}

/// The decimal digit characters of `n`, most significant first,
/// with no leading zeros (`0` itself is the single character `'0'`).
pub open spec fn dec_chars(n: nat) -> Seq<char>
    decreases n,
{
    if n < 10 {
        seq![digit_char(n as int)]
    } else {
        dec_chars(n / 10) + seq![digit_char((n % 10) as int)]
    }
}

/// The same digits as ASCII byte codes.
pub open spec fn dec_bytes(n: nat) -> Seq<u8>
    decreases n,
{
    if n < 10 {
        seq![(48 + n) as u8]
    } else {
        dec_bytes(n / 10) + seq![(48 + n % 10) as u8]
    }
}

pub proof fn lemma_dec_bytes_are_chars(n: nat)
    ensures
        dec_chars(n) =~= dec_bytes(n).map_values(|b: u8| b as char),
    decreases n,
{
    if n < 10 {
    } else {
        lemma_dec_bytes_are_chars(n / 10);
    }
}

/// Every byte of a decimal rendering is an ASCII digit code.
pub proof fn lemma_dec_bytes_ascii(n: nat)
    ensures
        forall|i: int| 0 <= i < dec_bytes(n).len() ==> 48 <= #[trigger] dec_bytes(n)[i] <= 57,
    decreases n,
{
    if n < 10 {
    } else {
        lemma_dec_bytes_ascii(n / 10);
        assert(dec_bytes(n) == dec_bytes(n / 10) + seq![(48 + n % 10) as u8]);
        assert(forall|i: int|
            0 <= i < dec_bytes(n / 10).len() ==> dec_bytes(n)[i] == #[trigger] dec_bytes(
                n / 10,
            )[i]);
    }
}

/// A decimal rendering is never empty.
pub proof fn lemma_dec_chars_len(n: nat)
    ensures
        dec_chars(n).len() >= 1,
    decreases n,
{
    if n >= 10 {
        lemma_dec_chars_len(n / 10);
    }
}

/// Distinct numbers have distinct decimal renderings.
pub proof fn lemma_dec_chars_injective(a: nat, b: nat)
    requires
        dec_chars(a) == dec_chars(b),
    ensures
        a == b,
    decreases a,
{
    if a < 10 && b < 10 {
        assert(dec_chars(a) =~= seq![digit_char(a as int)]);
        assert(dec_chars(b) =~= seq![digit_char(b as int)]);
        assert(dec_chars(a)[0] == digit_char(a as int));
        assert(dec_chars(b)[0] == digit_char(b as int));
        assert(digit_char(a as int) == digit_char(b as int));
        assert((48 + a) as u8 as char as u32 == (48 + b) as u8 as char as u32);
    } else if a < 10 && b >= 10 {
        lemma_dec_chars_len(b / 10);
    } else if a >= 10 && b < 10 {
        lemma_dec_chars_len(a / 10);
    } else {
        lemma_dec_chars_len(a / 10);
        lemma_dec_chars_len(b / 10);
        assert(dec_chars(a) =~= dec_chars(a / 10) + seq![digit_char((a % 10) as int)]);
        assert(dec_chars(b) =~= dec_chars(b / 10) + seq![digit_char((b % 10) as int)]);
        assert(dec_chars(a).last() == digit_char((a % 10) as int));
        assert(dec_chars(b).last() == digit_char((b % 10) as int));
        assert(digit_char((a % 10) as int) == digit_char((b % 10) as int));
        assert((48 + a % 10) as u8 as char as u32 == (48 + b % 10) as u8 as char as u32);
        assert(a % 10 == b % 10);
        assert(dec_chars(a).drop_last() =~= dec_chars(a / 10));
        assert(dec_chars(b).drop_last() =~= dec_chars(b / 10));
        lemma_dec_chars_injective(a / 10, b / 10);
    }
}

/// Appends the decimal digit bytes of `n` to `out`.
fn push_dec_bytes(n: u64, out: &mut Vec<u8>)
    ensures
        final(out)@ =~= old(out)@ + dec_bytes(n as nat),
    decreases n,
{
    if n < 10 {
        out.push(48 + (n as u8));
    } else {
        push_dec_bytes(n / 10, out);
        out.push(48 + ((n % 10) as u8));
    }
}

/// Relies on `String::from_utf8`: ASCII bytes are valid UTF-8 and decode to
/// one character per byte, each with the byte's own code.
#[verifier::external_body]
fn string_from_ascii(bytes: Vec<u8>) -> (r: String)
    requires
        forall|i: int| 0 <= i < bytes@.len() ==> bytes@[i] < 128,
    ensures
        r@ == bytes@.map_values(|b: u8| b as char),
{
    match String::from_utf8(bytes) {
        Ok(s) => s,
        Err(_) => String::new(),
    }
}

/// Renders `n` in decimal, most significant digit first.
pub fn u64_to_dec(n: u64) -> (r: String)
    ensures
        r@ == dec_chars(n as nat),
{
    let mut bytes: Vec<u8> = Vec::new();
    push_dec_bytes(n, &mut bytes);
    proof {
        lemma_dec_bytes_ascii(n as nat);
        lemma_dec_bytes_are_chars(n as nat);
    }
    string_from_ascii(bytes)
}

} // verus!
