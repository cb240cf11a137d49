//! Binding a public key to a claimed wallet address.
//!
//! A Shelley address is one header byte followed by credential bytes: the
//! high nibble of the header gives the shape (base, pointer, enterprise,
//! reward, or the legacy container), and its low bit says whether the payment
//! credential is a key hash or a script hash. The payment credential is
//! always the 28 bytes after the header. A key owns an address exactly when
//! the standard 224-bit digest of the key equals that credential.
//!
//! The address string arrives either as hex of the raw bytes or in the
//! checksum-encoded text form; the checksum decoding and the digest come from
//! the serialization library, everything else is decoded here.

use vstd::prelude::*;

use crate::errors::BindError;
use crate::hexcodec::hex_decode_bytes;
use crate::hexcodec::spec_hex_decode;

verus! {

/// The 224-bit digest of a 32-byte public key, as the chain's key-hash
/// function computes it; a function of the key bytes alone.
pub uninterp spec fn blake2b224_of(key: Seq<u8>) -> Seq<u8>;

/// Relies on `cardano_serialization_lib::crypto::PublicKey::{from_bytes,
/// hash}` and `Ed25519KeyHash::to_bytes`: on exactly 32 bytes `from_bytes`
/// always succeeds, and `hash` is the 28-byte Blake2b-224 digest of those
/// bytes, a function of them alone.
#[verifier::external_body]
fn key_hash_bytes(pk: &[u8]) -> (r: Vec<u8>)
    requires
        pk@.len() == 32,
    ensures
        r@ == blake2b224_of(pk@),
        r@.len() == 28,
{
    match cardano_serialization_lib::crypto::PublicKey::from_bytes(pk) {
        Ok(k) => k.hash().to_bytes(),
        Err(_) => Vec::new(),
    }
}

/// The bytes a checksum-encoded address string carries, if it is well-formed;
/// a function of the string alone.
pub uninterp spec fn bech32_data_of(s: Seq<char>) -> Option<Seq<u8>>;

/// Relies on `bech32::decode` and `bech32::FromBase32` for `Vec<u8>`:
/// together they accept exactly the well-formed checksum-encoded strings and
/// return the bytes the data part carries, a function of the string alone.
#[verifier::external_body]
fn bech32_decode_str(s: &str) -> (r: Option<Vec<u8>>)
    ensures
        r is Some <==> bech32_data_of(s@) is Some,
        r matches Some(v) ==> Some(v@) == bech32_data_of(s@),
{
    match bech32::decode(s) {
        Ok((_hrp, data)) => match <Vec<u8> as bech32::FromBase32>::from_base32(&data) {
            Ok(bytes) => Some(bytes),
            Err(_) => None,
        },
        Err(_) => None,
    }
}

/// The checksum-encoded rendering of raw address bytes, if they form a valid
/// address; a function of the bytes alone.
pub uninterp spec fn bech32_render_of(b: Seq<u8>) -> Option<Seq<char>>;

/// Relies on `cardano_serialization_lib::address::Address::{from_bytes,
/// to_bech32}`: the rendering, with the prefix chosen from the address's own
/// network byte, depends on the bytes alone. `from_bytes` reads the first
/// byte unconditionally, so the input may not be empty.
#[verifier::external_body]
pub(crate) fn bech32_of_address_bytes(b: &[u8]) -> (r: Option<String>)
    requires
        b@.len() > 0,
    ensures
        r is Some <==> bech32_render_of(b@) is Some,
        r matches Some(v) ==> Some(v@) == bech32_render_of(b@),
{
    match cardano_serialization_lib::address::Address::from_bytes(b.to_vec()) {
        Ok(a) => a.to_bech32(None).ok(),
        Err(_) => None,
    }
}

/// Length of the variable-length natural starting `s`: continuation bytes
/// carry the high bit, the last byte does not.
pub open spec fn spec_varnat_len(s: Seq<u8>) -> Option<int>
    decreases s.len(),
{
    if s.len() == 0 {
        None
    } else if s[0] < 0x80 {
        Some(1)
    } else {
        match spec_varnat_len(s.drop_first()) {
            Some(c) => Some(1 + c),
            None => None,
        }
    }
}

/// Whether `s` is exactly three variable-length naturals (a pointer's slot,
/// transaction index and certificate index).
pub open spec fn spec_three_varnats_exact(s: Seq<u8>) -> bool {
    match spec_varnat_len(s) {
        None => false,
        Some(c1) => match spec_varnat_len(s.skip(c1)) {
            None => false,
            Some(c2) => match spec_varnat_len(s.skip(c1 + c2)) {
                None => false,
                Some(c3) => c1 + c2 + c3 == s.len(),
            },
        },
    }
}

/// The shape nibble of a structurally valid address, or `None` if the bytes
/// are not a well-formed address. Base addresses hold two credentials,
/// enterprise and reward addresses one, pointer addresses one credential and
/// three variable-length naturals; the legacy container (nibble 8) is
/// recognized but not inspected.
pub open spec fn spec_addr_type(b: Seq<u8>) -> Option<u8> {
    if b.len() == 0 {
        None
    } else {
        let t = b[0] / 16;
        if t <= 3 {
            if b.len() == 57 {
                Some(t)
            } else {
                None
            }
        } else if t == 4 || t == 5 {
            if b.len() >= 32 && spec_three_varnats_exact(b.skip(29)) {
                Some(t)
            } else {
                None
            }
        } else if t == 6 || t == 7 {
            if b.len() == 29 {
                Some(t)
            } else {
                None
            }
        } else if t == 8 {
            Some(8)
        } else if t == 14 || t == 15 {
            if b.len() == 29 {
                Some(t)
            } else {
                None
            }
        } else {
            None
        }
    }
}

/// The payment credential: the 28 bytes after the header.
pub open spec fn spec_payment_credential(b: Seq<u8>) -> Seq<u8> {
    b.subrange(1, 29)
}

/// Extracting the payment key hash from address bytes, or the reason there
/// is none.
pub open spec fn spec_payment_key_hash(b: Seq<u8>) -> Result<Seq<u8>, BindError> {
    match spec_addr_type(b) {
        None => Err(BindError::BadAddress),
        Some(t) => {
            if t <= 7 {
                if t % 2 == 0 {
                    Ok(spec_payment_credential(b))
                } else {
                    Err(BindError::ScriptCredential)
                }
            } else {
                Err(BindError::UnsupportedShape)
            }
        },
    }
}

/// Scans one variable-length natural starting at `pos`, returning the
/// position after it.
fn varnat_end(s: &[u8], pos: usize) -> (r: Option<usize>)
    requires
        pos <= s@.len(),
    ensures
        match r {
            Some(q) => pos < q <= s@.len() && spec_varnat_len(s@.skip(pos as int)) == Some(
                q - pos,
            ),
            None => spec_varnat_len(s@.skip(pos as int)) is None,
        },
{
    let n = s.len();
    let mut q = pos;
    while q < n
        invariant
            pos <= q <= n,
            n == s@.len(),
            spec_varnat_len(s@.skip(pos as int)) == (match spec_varnat_len(s@.skip(q as int)) {
                Some(c) => Some(q - pos + c),
                None => None::<int>,
            }),
        decreases n - q,
    {
        let b = *vstd::slice::slice_index_get(s, q);
        proof {
            assert(s@.skip(q as int)[0] == s@[q as int]);
            assert(s@.skip(q as int).drop_first() =~= s@.skip(q + 1));
        }
        q = q + 1;
        if b < 0x80 {
            return Some(q);
        }
    }
    assert(s@.skip(q as int).len() == 0);
    None
}

/// Checks that `s` consists of exactly three variable-length naturals.
fn three_varnats_exact(s: &[u8]) -> (r: bool)
    ensures
        r == spec_three_varnats_exact(s@),
{
    assert(s@.skip(0) =~= s@);
    match varnat_end(s, 0) {
        None => false,
        Some(q1) => {
            match varnat_end(s, q1) {
                None => false,
                Some(q2) => {
                    proof {
                        assert(s@.skip(0).skip(q1 as int) =~= s@.skip(q1 as int));
                    }
                    match varnat_end(s, q2) {
                        None => {
                            proof {
                                assert(s@.skip(q1 as int).skip(q2 - q1) =~= s@.skip(q2 as int));
                            }
                            false
                        },
                        Some(q3) => {
                            proof {
                                assert(s@.skip(q1 as int).skip(q2 - q1) =~= s@.skip(q2 as int));
                            }
                            q3 == s.len()
                        },
                    }
                },
            }
        },
    }
}

/// Extracts the payment key hash from raw address bytes, rejecting script
/// credentials and unsupported shapes.
fn payment_key_hash(b: &[u8]) -> (r: Result<Vec<u8>, BindError>)
    ensures
        match r {
            Ok(v) => spec_payment_key_hash(b@) == Ok::<Seq<u8>, BindError>(v@),
            Err(e) => spec_payment_key_hash(b@) == Err::<Seq<u8>, BindError>(e),
        },
{
    let n = b.len();
    if n == 0 {
        return Err(BindError::BadAddress);
    }
    let t = *vstd::slice::slice_index_get(b, 0) / 16;
    let shape_ok: bool = if t <= 3 {
        n == 57
    } else if t == 4 || t == 5 {
        n >= 32 && three_varnats_exact(vstd::slice::slice_subrange(b, 29, n))
    } else if t == 6 || t == 7 {
        n == 29
    } else if t == 8 {
        true
    } else if t == 14 || t == 15 {
        n == 29
    } else {
        false
    };
    proof {
        // the slice handed to the pointer check is the suffix after the credential
        assert(b@.skip(29) =~= b@.subrange(29, n as int));
    }
    if !shape_ok {
        assert(spec_addr_type(b@) is None);
        return Err(BindError::BadAddress);
    }
    if t > 7 {
        return Err(BindError::UnsupportedShape);
    }
    if t % 2 == 1 {
        return Err(BindError::ScriptCredential);
    }
    let cred = vstd::slice::slice_to_vec(vstd::slice::slice_subrange(b, 1, 29));
    Ok(cred)
}

/// The address bytes a claimed address string denotes: even-length hex text
/// decodes as hex, anything else is read as checksum-encoded text.
pub open spec fn spec_address_bytes(s: Seq<char>) -> Option<Seq<u8>> {
    match spec_hex_decode(vstd::utf8::encode_utf8(s)) {
        Some(b) => Some(b),
        None => bech32_data_of(s),
    }
}

/// The binding verdict as a function of the address string and key bytes:
/// the decoded address must have a key payment credential equal to the key's
/// digest.
pub open spec fn spec_verify_binds(address: Seq<char>, pk: Seq<u8>) -> Result<(), BindError> {
    match spec_address_bytes(address) {
        None => Err(BindError::BadAddress),
        Some(b) => match spec_payment_key_hash(b) {
            Err(e) => Err(e),
            Ok(cred) => {
                if cred == blake2b224_of(pk) {
                    Ok(())
                } else {
                    Err(BindError::KeyMismatch)
                }
            },
        },
    }
}

/// Byte-for-byte equality of two byte vectors.
fn vec_bytes_eq(a: &Vec<u8>, b: &Vec<u8>) -> (r: bool)
    ensures
        r == (a@ == b@),
{
    if a.len() != b.len() {
        assert(a@.len() != b@.len());
        return false;
    }
    let n = a.len();
    let mut i: usize = 0;
    while i < n
        invariant
            n == a@.len() == b@.len(),
            i <= n,
            forall|j: int| 0 <= j < i ==> a@[j] == b@[j],
        decreases n - i,
    {
        if a[i] != b[i] {
            return false;
        }
        i = i + 1;
    }
    proof {
        assert(a@ =~= b@);
    }
    true
}

/// Blocks authentication as an address with a key that does not belong to
/// it: decodes the address, extracts its payment credential, and compares it
/// with the digest of the supplied key. Both this check and signature
/// verification must pass; neither alone is sufficient.
pub fn verify_binds(address: &String, public_key: &Vec<u8>) -> (r: Result<(), BindError>)
    requires
        public_key@.len() == 32,
    ensures
        r == spec_verify_binds(address@, public_key@),
{
    let addr_bytes: Vec<u8> = match hex_decode_bytes(address.as_str().as_bytes()) {
        Some(b) => b,
        None => match bech32_decode_str(address.as_str()) {
            Some(b) => b,
            None => {
                return Err(BindError::BadAddress);
            },
        },
    };
    match payment_key_hash(addr_bytes.as_slice()) {
        Err(e) => Err(e),
        Ok(cred) => {
            let digest = key_hash_bytes(public_key.as_slice());
            if vec_bytes_eq(&cred, &digest) {
                Ok(())
            } else {
                Err(BindError::KeyMismatch)
            }
        },
    }
}

/// Whether the byte rendering of an address string starts with the
/// human-readable prefix `addr`.
pub open spec fn spec_has_addr_prefix(bytes: Seq<u8>) -> bool {
    bytes.len() >= 4 && bytes[0] == 97 && bytes[1] == 100 && bytes[2] == 100 && bytes[3] == 114
}

/// The session subject derived from a verified address: a string already in
/// the checksum form is kept; hex is re-rendered when possible; anything the
/// renderer refuses is kept unchanged.
pub open spec fn spec_session_subject(a: Seq<char>) -> Seq<char> {
    if spec_has_addr_prefix(vstd::utf8::encode_utf8(a)) {
        a
    } else {
        match spec_hex_decode(vstd::utf8::encode_utf8(a)) {
            Some(b) => {
                if b.len() > 0 {
                    match bech32_render_of(b) {
                        Some(s) => s,
                        None => a,
                    }
                } else {
                    a
                }
            },
            None => a,
        }
    }
}

/// Renders a verified address in its checksum-encoded form for use as the
/// session subject, keeping it unchanged when it already is one or cannot be
/// converted.
pub fn convert_to_bech32(address: &String) -> (r: String)
    ensures
        r@ == spec_session_subject(address@),
{
    let ab = address.as_str().as_bytes();
    if ab.len() >= 4 && ab[0] == 97 && ab[1] == 100 && ab[2] == 100 && ab[3] == 114 {
        return address.clone();
    }
    match hex_decode_bytes(ab) {
        Some(b) => {
            if b.len() > 0 {
                match bech32_of_address_bytes(b.as_slice()) {
                    Some(s) => s,
                    None => address.clone(),
                }
            } else {
                address.clone()
            }
        },
        None => address.clone(),
    }
}

} // verus!
