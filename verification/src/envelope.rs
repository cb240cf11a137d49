//! The compact binary envelopes that signing wallets return.
//!
//! A signature arrives either as a raw 64-byte string or as a structured
//! four-element container `[protected-headers, ignored-headers, payload,
//! signature]`; a public key arrives either as raw 32 bytes or as a key/value
//! container whose entry under the integer label `-2` holds the key bytes.
//! Both use a CBOR-style framing: each item starts with one byte giving a
//! major type (high three bits) and a small argument (low five bits), the
//! argument extending over the next 1, 2, 4 or 8 bytes when the small form
//! does not suffice.
//!
//! The decoder here is deliberately strict: only definite lengths are
//! accepted, tags and floats are rejected, and trailing bytes after the
//! envelope are an error. Malformed input yields `None`, never a panic.

use vstd::prelude::*;

verus! {

/// The major type and argument of the item starting the sequence, with the
/// number of header bytes, or `None` if the header is absent, truncated or
/// indefinite.
pub open spec fn spec_header(s: Seq<u8>) -> Option<(u8, u64, int)> {
    if s.len() == 0 {
        None
    } else {
        let major = s[0] / 32;
        let ai = s[0] % 32;
        if ai < 24 {
            Some((major, ai as u64, 1))
        } else if ai == 24 && s.len() >= 2 {
            Some((major, s[1] as u64, 2))
        } else if ai == 25 && s.len() >= 3 {
            Some((major, ((s[1] as u64) * 0x100 + (s[2] as u64)) as u64, 3))
        } else if ai == 26 && s.len() >= 5 {
            Some(
                (
                    major,
                    ((s[1] as u64) * 0x1000000 + (s[2] as u64) * 0x10000 + (s[3] as u64) * 0x100 + (
                    s[4] as u64)) as u64,
                    5,
                ),
            )
        } else if ai == 27 && s.len() >= 9 {
            Some(
                (
                    major,
                    ((s[1] as u64) * 0x100000000000000 + (s[2] as u64) * 0x1000000000000 + (
                    s[3] as u64) * 0x10000000000 + (s[4] as u64) * 0x100000000 + (s[5] as u64)
                        * 0x1000000 + (s[6] as u64) * 0x10000 + (s[7] as u64) * 0x100 + (
                    s[8] as u64)) as u64,
                    9,
                ),
            )
        } else {
            None
        }
    }
}

/// How many bytes the first complete item of `s` occupies, or `None` if `s`
/// does not start with an acceptable item.
pub open spec fn spec_skip_val(s: Seq<u8>) -> Option<int>
    decreases s.len(), 0nat,
{
    match spec_header(s) {
        None => None,
        Some((major, arg, hdr)) => {
            if major == 0 || major == 1 {
                Some(hdr)
            } else if major == 2 || major == 3 {
                if arg <= s.len() - hdr {
                    Some(hdr + arg)
                } else {
                    None
                }
            } else if major == 4 {
                if arg <= s.len() {
                    match spec_skip_vals(s.skip(hdr), arg as nat) {
                        Some(c) => Some(hdr + c),
                        None => None,
                    }
                } else {
                    None
                }
            } else if major == 5 {
                if arg <= s.len() {
                    match spec_skip_pairs(s.skip(hdr), arg as nat) {
                        Some(c) => Some(hdr + c),
                        None => None,
                    }
                } else {
                    None
                }
            } else if major == 7 {
                if hdr == 1 && 20 <= arg <= 23 {
                    Some(1)
                } else {
                    None
                }
            } else {
                None
            }
        },
    }
}

/// Bytes occupied by `n` consecutive items.
pub open spec fn spec_skip_vals(s: Seq<u8>, n: nat) -> Option<int>
    decreases s.len(), n,
{
    if n == 0 {
        Some(0)
    } else {
        match spec_skip_val(s) {
            None => None,
            Some(c) => {
                if 0 < c <= s.len() {
                    match spec_skip_vals(s.skip(c), (n - 1) as nat) {
                        Some(rest) => Some(c + rest),
                        None => None,
                    }
                } else {
                    None
                }
            },
        }
    }
}

/// Bytes occupied by `n` consecutive key/value pairs.
pub open spec fn spec_skip_pairs(s: Seq<u8>, n: nat) -> Option<int>
    decreases s.len(), n,
{
    if n == 0 {
        Some(0)
    } else {
        match spec_skip_val(s) {
            None => None,
            Some(c1) => {
                if 0 < c1 <= s.len() {
                    match spec_skip_val(s.skip(c1)) {
                        None => None,
                        Some(c2) => {
                            if 0 < c2 <= s.len() - c1 {
                                match spec_skip_pairs(s.skip(c1 + c2), (n - 1) as nat) {
                                    Some(rest) => Some(c1 + c2 + rest),
                                    None => None,
                                }
                            } else {
                                None
                            }
                        },
                    }
                } else {
                    None
                }
            },
        }
    }
}

/// A skipped item occupies at least one byte and stays inside the input.
pub proof fn lemma_skip_val_bounds(s: Seq<u8>)
    ensures
        spec_skip_val(s) matches Some(c) ==> 1 <= c <= s.len(),
    decreases s.len(), 0nat,
{
    if let Some((major, arg, hdr)) = spec_header(s) {
        if major == 4 {
            if arg <= s.len() {
                lemma_skip_vals_bounds(s.skip(hdr), arg as nat);
            }
        } else if major == 5 {
            if arg <= s.len() {
                lemma_skip_pairs_bounds(s.skip(hdr), arg as nat);
            }
        }
    }
}

pub proof fn lemma_skip_vals_bounds(s: Seq<u8>, n: nat)
    ensures
        spec_skip_vals(s, n) matches Some(c) ==> 0 <= c <= s.len(),
    decreases s.len(), n,
{
    if n != 0 {
        lemma_skip_val_bounds(s);
        if let Some(c) = spec_skip_val(s) {
            if 0 < c <= s.len() {
                lemma_skip_vals_bounds(s.skip(c), (n - 1) as nat);
            }
        }
    }
}

pub proof fn lemma_skip_pairs_bounds(s: Seq<u8>, n: nat)
    ensures
        spec_skip_pairs(s, n) matches Some(c) ==> 0 <= c <= s.len(),
    decreases s.len(), n,
{
    if n != 0 {
        if let Some(c1) = spec_skip_val(s) {
            if 0 < c1 <= s.len() {
                if let Some(c2) = spec_skip_val(s.skip(c1)) {
                    if 0 < c2 <= s.len() - c1 {
                        lemma_skip_pairs_bounds(s.skip(c1 + c2), (n - 1) as nat);
                    }
                }
            }
        }
    }
}

/// The content of a byte string starting the sequence, with the bytes it
/// occupies.
pub open spec fn spec_parse_bstr(s: Seq<u8>) -> Option<(Seq<u8>, int)> {
    match spec_header(s) {
        Some((2, arg, hdr)) => {
            if arg <= s.len() - hdr {
                Some((s.subrange(hdr, hdr + arg), hdr + arg))
            } else {
                None
            }
        },
        _ => None,
    }
}

/// A byte string, or the null item standing for an absent one (read as
/// empty).
pub open spec fn spec_parse_bstr_or_null(s: Seq<u8>) -> Option<(Seq<u8>, int)> {
    if s.len() > 0 && s[0] == 0xf6 {
        Some((Seq::empty(), 1))
    } else {
        spec_parse_bstr(s)
    }
}

/// The decoded signature envelope: `(signature, payload, protected)`.
///
/// A 64-byte input is the raw signature with empty payload and headers.
/// Anything else must be a four-element container of a byte string (or
/// null) of protected headers, one ignored item, a byte string (or null)
/// payload, and a 64-byte signature, with nothing following.
pub open spec fn spec_parse_signature_envelope(s: Seq<u8>) -> Option<(Seq<u8>, Seq<u8>, Seq<u8>)> {
    if s.len() == 64 {
        Some((s, Seq::empty(), Seq::empty()))
    } else {
        match spec_header(s) {
            Some((4, 4, hdr)) => {
                let t1 = s.skip(hdr);
                match spec_parse_bstr_or_null(t1) {
                    Some((protected, c1)) => {
                        let t2 = t1.skip(c1);
                        match spec_skip_val(t2) {
                            Some(c2) => {
                                let t3 = t2.skip(c2);
                                match spec_parse_bstr_or_null(t3) {
                                    Some((payload, c3)) => {
                                        let t4 = t3.skip(c3);
                                        match spec_parse_bstr(t4) {
                                            Some((sig, c4)) => {
                                                if sig.len() == 64 && c4 == t4.len() {
                                                    Some((sig, payload, protected))
                                                } else {
                                                    None
                                                }
                                            },
                                            None => None,
                                        }
                                    },
                                    None => None,
                                }
                            },
                            None => None,
                        }
                    },
                    None => None,
                }
            },
            _ => None,
        }
    }
}

/// The key bytes in the first entry of `s` labelled by the integer `-2`,
/// searching `n` entries; entries under other labels are skipped.
pub open spec fn spec_find_key_entry(s: Seq<u8>, n: nat) -> Option<Seq<u8>>
    decreases s.len(), n,
{
    if n == 0 {
        None
    } else {
        match spec_header(s) {
            None => None,
            Some((major, arg, hdr)) => {
                if major == 1 && arg == 1 {
                    // the label -2
                    match spec_parse_bstr(s.skip(hdr)) {
                        Some((key, _c)) => {
                            if key.len() == 32 {
                                Some(key)
                            } else {
                                None
                            }
                        },
                        None => None,
                    }
                } else {
                    match spec_skip_vals(s, 2) {
                        Some(c) => {
                            if 0 < c <= s.len() {
                                spec_find_key_entry(s.skip(c), (n - 1) as nat)
                            } else {
                                None
                            }
                        },
                        None => None,
                    }
                }
            },
        }
    }
}

/// The decoded key envelope: the 32 public-key bytes.
///
/// A 32-byte input is the raw key. Anything else must be a key/value
/// container, well-formed as a whole with nothing following, in which the
/// first entry labelled `-2` holds a 32-byte string.
pub open spec fn spec_parse_key_envelope(s: Seq<u8>) -> Option<Seq<u8>> {
    if s.len() == 32 {
        Some(s)
    } else {
        match spec_header(s) {
            Some((5, n, hdr)) => {
                if n <= s.len() && spec_skip_pairs(s.skip(hdr), n as nat) == Some(
                    s.len() - hdr,
                ) {
                    spec_find_key_entry(s.skip(hdr), n as nat)
                } else {
                    None
                }
            },
            _ => None,
        }
    }
}

// ---------------------------------------------------------------------------
// Executable decoder
// ---------------------------------------------------------------------------

/// Reads the item header at `pos`.
fn read_header(s: &[u8], pos: usize) -> (r: Option<(u8, u64, usize)>)
    requires
        pos <= s@.len(),
    ensures
        match r {
            Some((major, arg, hdr)) => spec_header(s@.skip(pos as int)) == Some(
                (major, arg, hdr as int),
            ) && pos + hdr <= s@.len(),
            None => spec_header(s@.skip(pos as int)) is None,
        },
{
    let n = s.len();
    if pos >= n {
        return None;
    }
    let b = *vstd::slice::slice_index_get(s, pos);
    let major = b / 32;
    let ai = b % 32;
    assert(s@.skip(pos as int)[0] == s@[pos as int]);
    if ai < 24 {
        Some((major, ai as u64, 1))
    } else if ai == 24 && n - pos >= 2 {
        let a0 = *vstd::slice::slice_index_get(s, pos + 1);
        assert(s@.skip(pos as int)[1] == s@[pos + 1]);
        Some((major, a0 as u64, 2))
    } else if ai == 25 && n - pos >= 3 {
        let a0 = *vstd::slice::slice_index_get(s, pos + 1);
        let a1 = *vstd::slice::slice_index_get(s, pos + 2);
        assert(s@.skip(pos as int)[1] == s@[pos + 1] && s@.skip(pos as int)[2] == s@[pos + 2]);
        Some((major, (a0 as u64) * 0x100 + (a1 as u64), 3))
    } else if ai == 26 && n - pos >= 5 {
        let a0 = *vstd::slice::slice_index_get(s, pos + 1);
        let a1 = *vstd::slice::slice_index_get(s, pos + 2);
        let a2 = *vstd::slice::slice_index_get(s, pos + 3);
        let a3 = *vstd::slice::slice_index_get(s, pos + 4);
        assert(forall|k: int|
            1 <= k <= 4 ==> s@.skip(pos as int)[k] == s@[pos + k]);
        Some((major, (a0 as u64) * 0x1000000 + (a1 as u64) * 0x10000 + (a2 as u64) * 0x100 + (
        a3 as u64), 5))
    } else if ai == 27 && n - pos >= 9 {
        let a0 = *vstd::slice::slice_index_get(s, pos + 1);
        let a1 = *vstd::slice::slice_index_get(s, pos + 2);
        let a2 = *vstd::slice::slice_index_get(s, pos + 3);
        let a3 = *vstd::slice::slice_index_get(s, pos + 4);
        let a4 = *vstd::slice::slice_index_get(s, pos + 5);
        let a5 = *vstd::slice::slice_index_get(s, pos + 6);
        let a6 = *vstd::slice::slice_index_get(s, pos + 7);
        let a7 = *vstd::slice::slice_index_get(s, pos + 8);
        assert(forall|k: int|
            1 <= k <= 8 ==> s@.skip(pos as int)[k] == s@[pos + k]);
        Some(
            (
                major,
                (a0 as u64) * 0x100000000000000 + (a1 as u64) * 0x1000000000000 + (a2 as u64)
                    * 0x10000000000 + (a3 as u64) * 0x100000000 + (a4 as u64) * 0x1000000 + (
                a5 as u64) * 0x10000 + (a6 as u64) * 0x100 + (a7 as u64),
                9,
            ),
        )
    } else {
        None
    }
}

proof fn lemma_skip_skip(s: Seq<u8>, a: int, b: int)
    requires
        0 <= a,
        0 <= b,
        a + b <= s.len(),
    ensures
        s.skip(a).skip(b) =~= s.skip(a + b),
{
}

/// Skips one item at `pos`, returning the position after it.
fn skip_val(s: &[u8], pos: usize) -> (r: Option<usize>)
    requires
        pos <= s@.len(),
    ensures
        match r {
            Some(q) => pos < q <= s@.len() && spec_skip_val(s@.skip(pos as int)) == Some(
                q - pos,
            ),
            None => spec_skip_val(s@.skip(pos as int)) is None,
        },
    decreases s@.len() - pos, 0nat,
{
    // bind the slice length so its bound is in scope for position arithmetic
    let _len = s.len();
    match read_header(s, pos) {
        None => None,
        Some((major, arg, hdr)) => {
            if major == 0 || major == 1 {
                Some(pos + hdr)
            } else if major == 2 || major == 3 {
                let rem = s.len() - pos - hdr;
                if arg <= rem as u64 {
                    Some(pos + hdr + (arg as usize))
                } else {
                    None
                }
            } else if major == 4 {
                if arg <= (s.len() - pos) as u64 {
                    proof {
                        lemma_skip_skip(s@, pos as int, hdr as int);
                    }
                    match skip_vals(s, pos + hdr, arg) {
                        Some(q) => Some(q),
                        None => None,
                    }
                } else {
                    None
                }
            } else if major == 5 {
                if arg <= (s.len() - pos) as u64 {
                    proof {
                        lemma_skip_skip(s@, pos as int, hdr as int);
                    }
                    match skip_pairs(s, pos + hdr, arg) {
                        Some(q) => Some(q),
                        None => None,
                    }
                } else {
                    None
                }
            } else if major == 7 {
                if hdr == 1 && 20 <= arg && arg <= 23 {
                    Some(pos + 1)
                } else {
                    None
                }
            } else {
                None
            }
        },
    }
}

/// Skips `n` items starting at `pos`.
fn skip_vals(s: &[u8], pos: usize, n: u64) -> (r: Option<usize>)
    requires
        pos <= s@.len(),
    ensures
        match r {
            Some(q) => pos <= q <= s@.len() && spec_skip_vals(s@.skip(pos as int), n as nat)
                == Some(q - pos),
            None => spec_skip_vals(s@.skip(pos as int), n as nat) is None,
        },
    decreases s@.len() - pos, n,
{
    if n == 0 {
        Some(pos)
    } else {
        match skip_val(s, pos) {
            None => None,
            Some(q) => {
                proof {
                    lemma_skip_skip(s@, pos as int, q - pos);
                }
                match skip_vals(s, q, n - 1) {
                    Some(q2) => Some(q2),
                    None => None,
                }
            },
        }
    }
}

/// Skips `n` key/value pairs starting at `pos`.
fn skip_pairs(s: &[u8], pos: usize, n: u64) -> (r: Option<usize>)
    requires
        pos <= s@.len(),
    ensures
        match r {
            Some(q) => pos <= q <= s@.len() && spec_skip_pairs(s@.skip(pos as int), n as nat)
                == Some(q - pos),
            None => spec_skip_pairs(s@.skip(pos as int), n as nat) is None,
        },
    decreases s@.len() - pos, n,
{
    if n == 0 {
        Some(pos)
    } else {
        match skip_val(s, pos) {
            None => None,
            Some(q1) => {
                proof {
                    lemma_skip_skip(s@, pos as int, q1 - pos);
                }
                match skip_val(s, q1) {
                    None => None,
                    Some(q2) => {
                        proof {
                            lemma_skip_skip(s@, pos as int, q2 - pos);
                        }
                        match skip_pairs(s, q2, n - 1) {
                            Some(q3) => Some(q3),
                            None => None,
                        }
                    },
                }
            },
        }
    }
}

/// Reads a byte string at `pos`, returning its content and the position
/// after it.
fn parse_bstr(s: &[u8], pos: usize) -> (r: Option<(Vec<u8>, usize)>)
    requires
        pos <= s@.len(),
    ensures
        match r {
            Some((v, q)) => pos < q <= s@.len() && spec_parse_bstr(s@.skip(pos as int))
                == Some((v@, q - pos)),
            None => spec_parse_bstr(s@.skip(pos as int)) is None,
        },
{
    match read_header(s, pos) {
        Some((2, arg, hdr)) => {
            let rem = s.len() - pos - hdr;
            if arg <= rem as u64 {
                let start = pos + hdr;
                let end = start + (arg as usize);
                let content = vstd::slice::slice_to_vec(
                    vstd::slice::slice_subrange(s, start, end),
                );
                assert(s@.skip(pos as int).subrange(
                    hdr as int,
                    hdr + arg,
                ) =~= s@.subrange(start as int, end as int));
                Some((content, end))
            } else {
                None
            }
        },
        _ => None,
    }
}

/// Reads a byte string or a null item (read as empty) at `pos`.
fn parse_bstr_or_null(s: &[u8], pos: usize) -> (r: Option<(Vec<u8>, usize)>)
    requires
        pos <= s@.len(),
    ensures
        match r {
            Some((v, q)) => pos < q <= s@.len() && spec_parse_bstr_or_null(s@.skip(pos as int))
                == Some((v@, q - pos)),
            None => spec_parse_bstr_or_null(s@.skip(pos as int)) is None,
        },
{
    if pos < s.len() && *vstd::slice::slice_index_get(s, pos) == 0xf6 {
        assert(s@.skip(pos as int)[0] == s@[pos as int]);
        let empty: Vec<u8> = Vec::new();
        assert(empty@ =~= Seq::<u8>::empty());
        Some((empty, pos + 1))
    } else {
        assert(pos < s@.len() ==> s@.skip(pos as int)[0] == s@[pos as int]);
        parse_bstr(s, pos)
    }
}

/// A decoded signature envelope.
pub struct SignatureEnvelope {
    /// The 64 raw signature bytes.
    pub signature: Vec<u8>,
    /// The payload embedded by the wallet, possibly empty.
    pub payload: Vec<u8>,
    /// The protected-header bytes, possibly empty.
    pub protected: Vec<u8>,
}

/// Decodes a signature envelope; `None` on any malformed input.
pub fn parse_signature_envelope(bytes: &[u8]) -> (r: Option<SignatureEnvelope>)
    ensures
        r is Some <==> spec_parse_signature_envelope(bytes@) is Some,
        r matches Some(e) ==> spec_parse_signature_envelope(bytes@) == Some(
            (e.signature@, e.payload@, e.protected@),
        ) && e.signature@.len() == 64,
{
    if bytes.len() == 64 {
        let sig = vstd::slice::slice_to_vec(bytes);
        let payload: Vec<u8> = Vec::new();
        let protected: Vec<u8> = Vec::new();
        assert(payload@ =~= Seq::<u8>::empty() && protected@ =~= Seq::<u8>::empty());
        return Some(SignatureEnvelope { signature: sig, payload, protected });
    }
    assert(bytes@.skip(0) =~= bytes@);
    match read_header(bytes, 0) {
        Some((4, 4, hdr)) => {
            match parse_bstr_or_null(bytes, hdr) {
                Some((protected, p1)) => {
                    proof {
                        lemma_skip_skip(bytes@, hdr as int, p1 - hdr);
                    }
                    match skip_val(bytes, p1) {
                        Some(p2) => {
                            proof {
                                lemma_skip_skip(bytes@, p1 as int, p2 - p1);
                            }
                            match parse_bstr_or_null(bytes, p2) {
                                Some((payload, p3)) => {
                                    proof {
                                        lemma_skip_skip(bytes@, p2 as int, p3 - p2);
                                    }
                                    match parse_bstr(bytes, p3) {
                                        Some((sig, p4)) => {
                                            if sig.len() == 64 && p4 == bytes.len() {
                                                Some(
                                                    SignatureEnvelope {
                                                        signature: sig,
                                                        payload,
                                                        protected,
                                                    },
                                                )
                                            } else {
                                                None
                                            }
                                        },
                                        None => None,
                                    }
                                },
                                None => None,
                            }
                        },
                        None => None,
                    }
                },
                None => None,
            }
        },
        _ => None,
    }
}

/// Searches `n` entries from `pos` for the first labelled `-2`, expecting a
/// 32-byte string there.
fn find_key_entry(s: &[u8], pos: usize, n: u64) -> (r: Option<Vec<u8>>)
    requires
        pos <= s@.len(),
    ensures
        match r {
            Some(v) => spec_find_key_entry(s@.skip(pos as int), n as nat) == Some(v@),
            None => spec_find_key_entry(s@.skip(pos as int), n as nat) is None,
        },
    decreases s@.len() - pos, n,
{
    if n == 0 {
        return None;
    }
    // bind the slice length so its bound is in scope for position arithmetic
    let _len = s.len();
    match read_header(s, pos) {
        None => None,
        Some((major, arg, hdr)) => {
            if major == 1 && arg == 1 {
                proof {
                    lemma_skip_skip(s@, pos as int, hdr as int);
                }
                match parse_bstr(s, pos + hdr) {
                    Some((key, _q)) => {
                        if key.len() == 32 {
                            Some(key)
                        } else {
                            None
                        }
                    },
                    None => None,
                }
            } else {
                match skip_vals(s, pos, 2) {
                    Some(q) => {
                        if q == pos {
                            proof {
                                lemma_skip_val_bounds(s@.skip(pos as int));
                                lemma_skip_vals_bounds(s@.skip(pos as int), 2);
                            }
                            None
                        } else {
                            proof {
                                lemma_skip_skip(s@, pos as int, q - pos);
                            }
                            find_key_entry(s, q, n - 1)
                        }
                    },
                    None => None,
                }
            }
        },
    }
}

/// Decodes a key envelope into the 32 public-key bytes; `None` on any
/// malformed input.
pub fn parse_key_envelope(bytes: &[u8]) -> (r: Option<Vec<u8>>)
    ensures
        r is Some <==> spec_parse_key_envelope(bytes@) is Some,
        r matches Some(v) ==> spec_parse_key_envelope(bytes@) == Some(v@) && v@.len() == 32,
{
    if bytes.len() == 32 {
        return Some(vstd::slice::slice_to_vec(bytes));
    }
    assert(bytes@.skip(0) =~= bytes@);
    match read_header(bytes, 0) {
        Some((5, n, hdr)) => {
            if n <= bytes.len() as u64 {
                proof {
                    lemma_skip_skip(bytes@, 0, hdr as int);
                }
                match skip_pairs(bytes, hdr, n) {
                    Some(q) => {
                        if q == bytes.len() {
                            match find_key_entry(bytes, hdr, n) {
                                Some(key) => {
                                    proof {
                                        if spec_find_key_entry(
                                            bytes@.skip(hdr as int),
                                            n as nat,
                                        ) matches Some(k) {
                                            lemma_find_key_len(bytes@.skip(hdr as int), n as nat);
                                        }
                                    }
                                    Some(key)
                                },
                                None => None,
                            }
                        } else {
                            None
                        }
                    },
                    None => None,
                }
            } else {
                None
            }
        },
        _ => None,
    }
}

/// A found key entry always holds exactly 32 bytes.
pub proof fn lemma_find_key_len(s: Seq<u8>, n: nat)
    ensures
        spec_find_key_entry(s, n) matches Some(k) ==> k.len() == 32,
    decreases s.len(), n,
{
    if n != 0 {
        if let Some((major, arg, hdr)) = spec_header(s) {
            if major == 1 && arg == 1 {
            } else {
                if let Some(c) = spec_skip_vals(s, 2) {
                    if 0 < c <= s.len() {
                        lemma_find_key_len(s.skip(c), (n - 1) as nat);
                    }
                }
            }
        }
    }
}

// ---------------------------------------------------------------------------
// Encoders
// ---------------------------------------------------------------------------

/// The shortest header encoding a major type and argument.
pub open spec fn spec_len_header(major: u8, n: nat) -> Seq<u8>
    recommends
        major < 8,
{
    if n < 24 {
        seq![(major * 32 + n) as u8]
    } else if n < 0x100 {
        seq![(major * 32 + 24) as u8, n as u8]
    } else if n < 0x10000 {
        seq![(major * 32 + 25) as u8, (n / 0x100) as u8, (n % 0x100) as u8]
    } else if n < 0x100000000 {
        seq![
            (major * 32 + 26) as u8,
            (n / 0x1000000) as u8,
            ((n / 0x10000) % 0x100) as u8,
            ((n / 0x100) % 0x100) as u8,
            (n % 0x100) as u8,
        ]
    } else {
        seq![
            (major * 32 + 27) as u8,
            (n / 0x100000000000000) as u8,
            ((n / 0x1000000000000) % 0x100) as u8,
            ((n / 0x10000000000) % 0x100) as u8,
            ((n / 0x100000000) % 0x100) as u8,
            ((n / 0x1000000) % 0x100) as u8,
            ((n / 0x10000) % 0x100) as u8,
            ((n / 0x100) % 0x100) as u8,
            (n % 0x100) as u8,
        ]
    }
}

/// A byte string item: header plus content.
pub open spec fn spec_bstr(b: Seq<u8>) -> Seq<u8> {
    spec_len_header(2, b.len()) + b
}

/// Appends the shortest header for `major` and `n`.
fn push_len_header(out: &mut Vec<u8>, major: u8, n: u64)
    requires
        major < 8,
    ensures
        final(out)@ =~= old(out)@ + spec_len_header(major, n as nat),
{
    if n < 24 {
        out.push(major * 32 + (n as u8));
    } else if n < 0x100 {
        out.push(major * 32 + 24);
        out.push(n as u8);
    } else if n < 0x10000 {
        out.push(major * 32 + 25);
        out.push((n / 0x100) as u8);
        out.push((n % 0x100) as u8);
    } else if n < 0x100000000 {
        out.push(major * 32 + 26);
        out.push((n / 0x1000000) as u8);
        out.push(((n / 0x10000) % 0x100) as u8);
        out.push(((n / 0x100) % 0x100) as u8);
        out.push((n % 0x100) as u8);
    } else {
        out.push(major * 32 + 27);
        out.push((n / 0x100000000000000) as u8);
        out.push(((n / 0x1000000000000) % 0x100) as u8);
        out.push(((n / 0x10000000000) % 0x100) as u8);
        out.push(((n / 0x100000000) % 0x100) as u8);
        out.push(((n / 0x1000000) % 0x100) as u8);
        out.push(((n / 0x10000) % 0x100) as u8);
        out.push(((n / 0x100) % 0x100) as u8);
        out.push((n % 0x100) as u8);
    }
}

/// Appends a byte-string item holding `b`.
fn push_bstr(out: &mut Vec<u8>, b: &[u8])
    ensures
        final(out)@ =~= old(out)@ + spec_bstr(b@),
{
    push_len_header(out, 2, b.len() as u64);
    let ghost mid = out@;
    let mut i: usize = 0;
    while i < b.len()
        invariant
            i <= b@.len(),
            out@ =~= mid + b@.take(i as int),
        decreases b@.len() - i,
    {
        out.push(*vstd::slice::slice_index_get(b, i));
        assert(b@.take(i + 1) =~= b@.take(i as int).push(b@[i as int]));
        i = i + 1;
    }
    assert(b@.take(b@.len() as int) =~= b@);
}

/// The context structure whose serialization some wallets sign: a
/// four-element container of the fixed text tag, the protected headers, an
/// empty auxiliary byte string, and the payload.
pub open spec fn spec_sig_structure(protected: Seq<u8>, payload: Seq<u8>) -> Seq<u8> {
    seq![0x84u8, 0x6au8, 83u8, 105u8, 103u8, 110u8, 97u8, 116u8, 117u8, 114u8, 101u8, 49u8]
        + spec_bstr(protected) + seq![0x40u8] + spec_bstr(payload)
}

/// Serializes the signing-context structure for the given protected headers
/// and payload.
pub fn encode_sig_structure(protected: &Vec<u8>, payload: &Vec<u8>) -> (r: Vec<u8>)
    ensures
        r@ == spec_sig_structure(protected@, payload@),
{
    let mut out: Vec<u8> = Vec::new();
    out.push(0x84);
    out.push(0x6a);
    out.push(83);
    out.push(105);
    out.push(103);
    out.push(110);
    out.push(97);
    out.push(116);
    out.push(117);
    out.push(114);
    out.push(101);
    out.push(49);
    push_bstr(&mut out, protected.as_slice());
    out.push(0x40);
    push_bstr(&mut out, payload.as_slice());
    out
}

/// The byte form of a structured signature envelope with the given fields;
/// an absent payload is encoded as the null item.
pub open spec fn spec_signature_envelope_bytes(
    sig: Seq<u8>,
    payload: Option<Seq<u8>>,
    protected: Seq<u8>,
) -> Seq<u8> {
    seq![0x84u8] + spec_bstr(protected) + seq![0xa0u8] + (match payload {
        Some(p) => spec_bstr(p),
        None => seq![0xf6u8],
    }) + spec_bstr(sig)
}

/// Serializes a structured signature envelope.
pub fn encode_signature_envelope(
    sig: &Vec<u8>,
    payload: Option<&Vec<u8>>,
    protected: &Vec<u8>,
) -> (r: Vec<u8>)
    ensures
        r@ == spec_signature_envelope_bytes(
            sig@,
            match payload {
                Some(p) => Some(p@),
                None => None,
            },
            protected@,
        ),
{
    let mut out: Vec<u8> = Vec::new();
    out.push(0x84);
    push_bstr(&mut out, protected.as_slice());
    out.push(0xa0);
    match payload {
        Some(p) => push_bstr(&mut out, p.as_slice()),
        None => out.push(0xf6),
    }
    push_bstr(&mut out, sig.as_slice());
    out
}

// ---------------------------------------------------------------------------
// The encoders invert the decoder
// ---------------------------------------------------------------------------

/// Decomposing a number below 2^32 into its four base-256 digits.
proof fn lemma_recompose4(n: int)
    requires
        0 <= n < 0x100000000,
    ensures
        (n / 0x1000000) * 0x1000000 + ((n / 0x10000) % 0x100) * 0x10000 + ((n / 0x100) % 0x100)
            * 0x100 + (n % 0x100) == n,
{
    vstd::arithmetic::div_mod::lemma_fundamental_div_mod(n, 0x100);
    vstd::arithmetic::div_mod::lemma_div_denominator(n, 0x100, 0x100);
    vstd::arithmetic::div_mod::lemma_fundamental_div_mod(n / 0x100, 0x100);
    vstd::arithmetic::div_mod::lemma_div_denominator(n, 0x10000, 0x100);
    vstd::arithmetic::div_mod::lemma_fundamental_div_mod(n / 0x10000, 0x100);
}

/// Decomposing a number below 2^64 into its eight base-256 digits.
proof fn lemma_recompose8(n: int)
    requires
        0 <= n <= u64::MAX,
    ensures
        (n / 0x100000000000000) * 0x100000000000000 + ((n / 0x1000000000000) % 0x100)
            * 0x1000000000000 + ((n / 0x10000000000) % 0x100) * 0x10000000000 + ((n / 0x100000000)
            % 0x100) * 0x100000000 + ((n / 0x1000000) % 0x100) * 0x1000000 + ((n / 0x10000)
            % 0x100) * 0x10000 + ((n / 0x100) % 0x100) * 0x100 + (n % 0x100) == n,
{
    vstd::arithmetic::div_mod::lemma_fundamental_div_mod(n, 0x100);
    vstd::arithmetic::div_mod::lemma_div_denominator(n, 0x100, 0x100);
    vstd::arithmetic::div_mod::lemma_fundamental_div_mod(n / 0x100, 0x100);
    vstd::arithmetic::div_mod::lemma_div_denominator(n, 0x10000, 0x100);
    vstd::arithmetic::div_mod::lemma_fundamental_div_mod(n / 0x10000, 0x100);
    vstd::arithmetic::div_mod::lemma_div_denominator(n, 0x1000000, 0x100);
    vstd::arithmetic::div_mod::lemma_fundamental_div_mod(n / 0x1000000, 0x100);
    vstd::arithmetic::div_mod::lemma_div_denominator(n, 0x100000000, 0x100);
    vstd::arithmetic::div_mod::lemma_fundamental_div_mod(n / 0x100000000, 0x100);
    vstd::arithmetic::div_mod::lemma_div_denominator(n, 0x10000000000, 0x100);
    vstd::arithmetic::div_mod::lemma_fundamental_div_mod(n / 0x10000000000, 0x100);
    vstd::arithmetic::div_mod::lemma_div_denominator(n, 0x1000000000000, 0x100);
    vstd::arithmetic::div_mod::lemma_fundamental_div_mod(n / 0x1000000000000, 0x100);
}

/// Reading a header off an encoded length header recovers the major type,
/// the argument and the header's own length, whatever follows.
pub proof fn lemma_header_inverts(major: u8, n: nat, rest: Seq<u8>)
    requires
        major < 8,
        n <= u64::MAX,
    ensures
        spec_header(spec_len_header(major, n) + rest) == Some(
            (major, n as u64, spec_len_header(major, n).len() as int),
        ),
{
    let s = spec_len_header(major, n) + rest;
    if n < 24 {
        assert(s[0] == major * 32 + n);
    } else if n < 0x100 {
        assert(s[0] == major * 32 + 24 && s[1] == n as u8);
    } else if n < 0x10000 {
        assert(s[0] == major * 32 + 25);
        assert(s[1] == (n / 0x100) as u8 && s[2] == (n % 0x100) as u8);
        vstd::arithmetic::div_mod::lemma_fundamental_div_mod(n as int, 0x100);
        assert((s[1] as u64) * 0x100 + (s[2] as u64) == n);
    } else if n < 0x100000000 {
        assert(s[0] == major * 32 + 26);
        assert(s[1] == (n / 0x1000000) as u8 && s[2] == ((n / 0x10000) % 0x100) as u8 && s[3] == ((
        n / 0x100) % 0x100) as u8 && s[4] == (n % 0x100) as u8);
        lemma_recompose4(n as int);
        assert((s[1] as u64) * 0x1000000 + (s[2] as u64) * 0x10000 + (s[3] as u64) * 0x100 + (
        s[4] as u64) == n);
    } else {
        assert(s[0] == major * 32 + 27);
        lemma_recompose8(n as int);
        assert((s[1] as u64) * 0x100000000000000 + (s[2] as u64) * 0x1000000000000 + (s[3] as u64)
            * 0x10000000000 + (s[4] as u64) * 0x100000000 + (s[5] as u64) * 0x1000000 + (
        s[6] as u64) * 0x10000 + (s[7] as u64) * 0x100 + (s[8] as u64) == n);
    }
}

/// Reading a byte string off its own encoding recovers the content, whatever
/// follows.
pub proof fn lemma_bstr_inverts(b: Seq<u8>, rest: Seq<u8>)
    requires
        b.len() <= u64::MAX,
    ensures
        spec_parse_bstr(spec_bstr(b) + rest) == Some((b, spec_bstr(b).len() as int)),
        spec_parse_bstr_or_null(spec_bstr(b) + rest) == Some((b, spec_bstr(b).len() as int)),
{
    let hdr = spec_len_header(2, b.len());
    let s = spec_bstr(b) + rest;
    assert(s =~= hdr + (b + rest));
    lemma_header_inverts(2, b.len(), b + rest);
    assert(s[0] == hdr[0]);
    assert(hdr[0] < 0x60);
    assert(s.subrange(hdr.len() as int, hdr.len() as int + b.len() as int) =~= b);
}

/// A structured envelope decodes back to exactly the fields it was built
/// from: the encoders and the decoder agree on every signature, payload and
/// protected header.
#[verifier::rlimit(100)]
pub proof fn lemma_signature_envelope_round_trip(
    sig: Seq<u8>,
    payload: Option<Seq<u8>>,
    protected: Seq<u8>,
)
    requires
        sig.len() == 64,
        protected.len() <= u64::MAX,
        payload matches Some(p) ==> p.len() <= u64::MAX,
    ensures
        spec_parse_signature_envelope(spec_signature_envelope_bytes(sig, payload, protected))
            == Some(
            (
                sig,
                match payload {
                    Some(p) => p,
                    None => Seq::<u8>::empty(),
                },
                protected,
            ),
        ),
{
    let pp: Seq<u8> = match payload {
        Some(p) => spec_bstr(p),
        None => seq![0xf6u8],
    };
    let b = spec_signature_envelope_bytes(sig, payload, protected);
    assert(b =~= seq![0x84u8] + spec_bstr(protected) + seq![0xa0u8] + pp + spec_bstr(sig));
    assert(b.len() >= 70) by {
        assert(spec_bstr(protected).len() >= 1 + protected.len());
        assert(spec_bstr(sig).len() == 2 + 64);
        assert(pp.len() >= 1);
    }
    assert(spec_header(b) == Some((4u8, 4u64, 1int))) by {
        assert(b[0] == 0x84);
    }
    let t1 = b.skip(1);
    assert(t1 =~= spec_bstr(protected) + (seq![0xa0u8] + pp + spec_bstr(sig)));
    lemma_bstr_inverts(protected, seq![0xa0u8] + pp + spec_bstr(sig));
    let c1 = spec_bstr(protected).len() as int;
    assert(spec_parse_bstr_or_null(t1) == Some((protected, c1)));
    let t2 = t1.skip(c1);
    assert(t2 =~= seq![0xa0u8] + (pp + spec_bstr(sig)));
    assert(spec_header(t2) == Some((5u8, 0u64, 1int))) by {
        assert(t2[0] == 0xa0);
    }
    assert(spec_skip_pairs(t2.skip(1), 0nat) == Some(0int));
    assert(spec_skip_val(t2) == Some(1int));
    let t3 = t2.skip(1);
    assert(t3 =~= pp + spec_bstr(sig));
    let c3: int = match payload {
        Some(p) => spec_bstr(p).len() as int,
        None => 1int,
    };
    assert(spec_parse_bstr_or_null(t3) == Some(
        (
            match payload {
                Some(p) => p,
                None => Seq::<u8>::empty(),
            },
            c3,
        ),
    )) by {
        match payload {
            Some(p) => {
                lemma_bstr_inverts(p, spec_bstr(sig));
            },
            None => {
                assert(t3[0] == 0xf6);
            },
        }
    }
    let t4 = t3.skip(c3);
    assert(t4 =~= spec_bstr(sig) + Seq::<u8>::empty());
    lemma_bstr_inverts(sig, Seq::<u8>::empty());
    assert(t4 =~= spec_bstr(sig));
    assert(spec_parse_bstr(t4) == Some((sig, spec_bstr(sig).len() as int)));
    assert(spec_bstr(sig).len() == 66) by {
        assert(spec_len_header(2, 64) =~= seq![0x58u8, 0x40u8]);
    }
    assert(t4.len() == 66);
}

} // verus!
