//! Byte-level primitives of the transaction wire format, and the
//! deterministic tag scheme that stands in for the cryptographic
//! primitives (signatures, commitment hashes, the threshold cipher).
//!
//! Every quantity on the wire is a little-endian `u64` or a
//! length-prefixed byte string; decoding is total and never panics,
//! so adversarial proposal bytes can only produce a typed failure.

use vstd::prelude::*;

verus! {

// ---------------------------------------------------------------------
// u64 fields, little endian
// ---------------------------------------------------------------------

/// The value of an 8-byte little-endian field (meaningful when `s.len() == 8`).
pub open spec fn spec_u64_of(s: Seq<u8>) -> u64 {
    (s[0] as int
        + s[1] as int * 0x100
        + s[2] as int * 0x1_0000
        + s[3] as int * 0x100_0000
        + s[4] as int * 0x1_0000_0000
        + s[5] as int * 0x100_0000_0000
        + s[6] as int * 0x1_0000_0000_0000
        + s[7] as int * 0x100_0000_0000_0000) as u64
}

/// The 8-byte little-endian encoding of `v`. Opaque: proofs about
/// streams treat the eight bytes as a block; `lemma_u64_bytes_len`
/// gives the length, and the codec lemmas reveal the contents.
#[verifier::opaque]
pub open spec fn spec_u64_bytes(v: u64) -> Seq<u8> {
    seq![
        (v as int % 0x100) as u8,
        (v as int / 0x100 % 0x100) as u8,
        (v as int / 0x1_0000 % 0x100) as u8,
        (v as int / 0x100_0000 % 0x100) as u8,
        (v as int / 0x1_0000_0000 % 0x100) as u8,
        (v as int / 0x100_0000_0000 % 0x100) as u8,
        (v as int / 0x1_0000_0000_0000 % 0x100) as u8,
        (v as int / 0x100_0000_0000_0000 % 0x100) as u8,
    ]
}

/// Read a `u64` field at position `p`, or fail if fewer than 8 bytes remain.
pub open spec fn sd_u64(b: Seq<u8>, p: int) -> Option<(u64, int)> {
    if 0 <= p && p + 8 <= b.len() {
        Some((spec_u64_of(b.subrange(p, p + 8)), p + 8))
    } else {
        None
    }
}

pub fn read_u64(b: &Vec<u8>, p: usize) -> (r: Option<(u64, usize)>)
    ensures
        (match r {
            Some((v, q)) => sd_u64(b@, p as int) == Some((v, q as int)),
            None => sd_u64(b@, p as int) is None,
        }),
{
    if b.len() >= 8 && p <= b.len() - 8 {
        let v: u64 = (b[p] as u64)
            + (b[p + 1] as u64) * 0x100
            + (b[p + 2] as u64) * 0x1_0000
            + (b[p + 3] as u64) * 0x100_0000
            + (b[p + 4] as u64) * 0x1_0000_0000
            + (b[p + 5] as u64) * 0x100_0000_0000
            + (b[p + 6] as u64) * 0x1_0000_0000_0000
            + (b[p + 7] as u64) * 0x100_0000_0000_0000;
        proof {
            let s = b@.subrange(p as int, p as int + 8);
            assert(s[0] == b@[p as int]);
            assert(s[1] == b@[p as int + 1]);
            assert(s[2] == b@[p as int + 2]);
            assert(s[3] == b@[p as int + 3]);
            assert(s[4] == b@[p as int + 4]);
            assert(s[5] == b@[p as int + 5]);
            assert(s[6] == b@[p as int + 6]);
            assert(s[7] == b@[p as int + 7]);
        }
        Some((v, p + 8))
    } else {
        None
    }
}

pub broadcast proof fn lemma_u64_bytes_len(v: u64)
    ensures
        (#[trigger] spec_u64_bytes(v)).len() == 8,
{
    reveal(spec_u64_bytes);
}

pub fn write_u64(out: &mut Vec<u8>, v: u64)
    ensures
        final(out)@ == old(out)@ + spec_u64_bytes(v),
{
    proof {
        reveal(spec_u64_bytes);
    }
    out.push((v % 0x100) as u8);
    out.push((v / 0x100 % 0x100) as u8);
    out.push((v / 0x1_0000 % 0x100) as u8);
    out.push((v / 0x100_0000 % 0x100) as u8);
    out.push((v / 0x1_0000_0000 % 0x100) as u8);
    out.push((v / 0x100_0000_0000 % 0x100) as u8);
    out.push((v / 0x1_0000_0000_0000 % 0x100) as u8);
    out.push((v / 0x100_0000_0000_0000 % 0x100) as u8);
    proof {
        assert(out@ =~= old(out)@ + spec_u64_bytes(v));
    }
}

// ---------------------------------------------------------------------
// Length-prefixed byte strings
// ---------------------------------------------------------------------

/// A `u64` length followed by that many raw bytes.
pub open spec fn se_lpbytes(s: Seq<u8>) -> Seq<u8> {
    spec_u64_bytes(s.len() as u64) + s
}

pub open spec fn sd_lpbytes(b: Seq<u8>, p: int) -> Option<(Seq<u8>, int)> {
    match sd_u64(b, p) {
        Some((n, p1)) => {
            if p1 + n <= b.len() {
                Some((b.subrange(p1, p1 + n), p1 + n))
            } else {
                None
            }
        },
        None => None,
    }
}

/// Copy `b[from..to]` out into a fresh vector.
pub fn copy_range(b: &Vec<u8>, from: usize, to: usize) -> (r: Vec<u8>)
    requires
        from <= to,
        to <= b@.len(),
    ensures
        r@ == b@.subrange(from as int, to as int),
{
    let mut r: Vec<u8> = Vec::new();
    let mut i: usize = from;
    while i < to
        invariant
            from <= i <= to,
            to <= b@.len(),
            r@ == b@.subrange(from as int, i as int),
        decreases to - i,
    {
        r.push(b[i]);
        proof {
            assert(r@ =~= b@.subrange(from as int, i as int + 1));
        }
        i = i + 1;
    }
    r
}

pub fn read_lpbytes(b: &Vec<u8>, p: usize) -> (r: Option<(Vec<u8>, usize)>)
    ensures
        (match r {
            Some((v, q)) => sd_lpbytes(b@, p as int) == Some((v@, q as int)),
            None => sd_lpbytes(b@, p as int) is None,
        }),
{
    match read_u64(b, p) {
        None => None,
        Some((n, p1)) => {
            let avail: usize = b.len() - p1;
            if n <= avail as u64 {
                let end: usize = p1 + n as usize;
                Some((copy_range(b, p1, end), end))
            } else {
                None
            }
        },
    }
}

pub fn write_lpbytes(out: &mut Vec<u8>, s: &Vec<u8>)
    ensures
        final(out)@ == old(out)@ + se_lpbytes(s@),
{
    write_u64(out, s.len() as u64);
    let mut i: usize = 0;
    while i < s.len()
        invariant
            i <= s@.len(),
            out@ == old(out)@ + spec_u64_bytes(s@.len() as u64) + s@.subrange(0, i as int),
        decreases s@.len() - i,
    {
        out.push(s[i]);
        proof {
            assert(out@ =~= old(out)@ + spec_u64_bytes(s@.len() as u64)
                + s@.subrange(0, i as int + 1));
        }
        i = i + 1;
    }
    proof {
        assert(s@.subrange(0, s@.len() as int) =~= s@);
        assert(out@ =~= old(out)@ + se_lpbytes(s@));
    }
}

// ---------------------------------------------------------------------
// The keyed tag: the deterministic stand-in for cryptography
// ---------------------------------------------------------------------

/// One fold step of the keyed tag.
pub open spec fn spec_tag_step(h: u64, byte: u8) -> u64 {
    ((h as int * 131 + byte as int) % 0x8000_0000_0000_0000) as u64
}

/// The tag of the first `n` bytes of `msg`, seeded with `key`.
pub open spec fn spec_tag_prefix(key: u64, msg: Seq<u8>, n: int) -> u64
    decreases n,
{
    if n <= 0 {
        key
    } else {
        spec_tag_step(spec_tag_prefix(key, msg, n - 1), msg[n - 1])
    }
}

/// The deterministic keyed tag of a message. It models a signature:
/// a signature by key `k` over message `m` is valid exactly when it
/// equals `spec_keyed_tag(k, m)`, so the same bytes verify on every
/// validator and any change to the signed bytes changes the tag.
pub open spec fn spec_keyed_tag(key: u64, msg: Seq<u8>) -> u64 {
    spec_tag_prefix(key, msg, msg.len() as int)
}

pub fn keyed_tag(key: u64, msg: &Vec<u8>) -> (r: u64)
    ensures
        r == spec_keyed_tag(key, msg@),
{
    let mut h: u64 = key;
    let mut i: usize = 0;
    while i < msg.len()
        invariant
            i <= msg@.len(),
            h == spec_tag_prefix(key, msg@, i as int),
        decreases msg@.len() - i,
    {
        let t: u128 = (h as u128) * 131 + (msg[i] as u128);
        h = (t % 0x8000_0000_0000_0000) as u64;
        i = i + 1;
    }
    h
}

/// Seed that turns the keyed tag into the commitment hash of raw bytes.
pub const HASH_SEED: u64 = 0x51_7c_c1_b7_27_22_0a_95;

/// The commitment hash binding a wrapper to its expected plaintext.
pub open spec fn spec_hash_tx(bytes: Seq<u8>) -> u64 {
    spec_keyed_tag(HASH_SEED, bytes)
}

pub fn hash_tx(bytes: &Vec<u8>) -> (r: u64)
    ensures
        r == spec_hash_tx(bytes@),
{
    keyed_tag(HASH_SEED, bytes)
}

// ---------------------------------------------------------------------
// The cipher model
// ---------------------------------------------------------------------

/// Leading byte of a ciphertext that decrypts.
pub const CIPHER_TAG: u8 = 1;

/// What a ciphertext decrypts to, if anything.
pub open spec fn spec_decrypt(ct: Seq<u8>) -> Option<Seq<u8>> {
    if ct.len() >= 1 && ct[0] == CIPHER_TAG {
        Some(ct.subrange(1, ct.len() as int))
    } else {
        None
    }
}

/// Structural well-formedness of a ciphertext, checkable without
/// decrypting: a recognized leading scheme byte must be present.
pub open spec fn spec_ciphertext_wf(ct: Seq<u8>) -> bool {
    ct.len() >= 1 && (ct[0] == 0 || ct[0] == CIPHER_TAG)
}

pub fn validate_ciphertext(ct: &Vec<u8>) -> (r: bool)
    ensures
        r == spec_ciphertext_wf(ct@),
{
    ct.len() >= 1 && (ct[0] == 0 || ct[0] == CIPHER_TAG)
}

pub fn decrypt(ct: &Vec<u8>) -> (r: Option<Vec<u8>>)
    ensures
        (match r {
            Some(pt) => spec_decrypt(ct@) == Some(pt@),
            None => spec_decrypt(ct@) is None,
        }),
{
    if ct.len() >= 1 && ct[0] == CIPHER_TAG {
        Some(copy_range(ct, 1, ct.len()))
    } else {
        None
    }
}

/// Build the ciphertext that decrypts to `pt`.
pub fn encrypt(pt: &Vec<u8>) -> (r: Vec<u8>)
    ensures
        r@ == seq![CIPHER_TAG] + pt@,
        spec_decrypt(r@) == Some(pt@),
        spec_ciphertext_wf(r@),
{
    let mut r: Vec<u8> = Vec::new();
    r.push(CIPHER_TAG);
    let mut i: usize = 0;
    while i < pt.len()
        invariant
            i <= pt@.len(),
            r@ == seq![CIPHER_TAG] + pt@.subrange(0, i as int),
        decreases pt@.len() - i,
    {
        r.push(pt[i]);
        proof {
            assert(r@ =~= seq![CIPHER_TAG] + pt@.subrange(0, i as int + 1));
        }
        i = i + 1;
    }
    proof {
        assert(pt@.subrange(0, pt@.len() as int) =~= pt@);
        assert(spec_decrypt(r@) == Some(pt@)) by {
            assert(r@.subrange(1, r@.len() as int) =~= pt@);
        }
    }
    r
}

} // verus!
