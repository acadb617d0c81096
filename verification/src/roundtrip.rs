//! Decoding inverts encoding: the canonical bytes of any well-formed
//! transaction decode back to exactly that transaction. Each lemma
//! shows that a parser consumes its value's encoding from the middle
//! of any surrounding stream, so the pieces compose.

use vstd::prelude::*;
use crate::codec::{sd_lpbytes, sd_u64, se_lpbytes, spec_u64_bytes, spec_u64_of};
use crate::decode::{
    sd_decrypted, sd_digest, sd_event, sd_events, sd_inner, sd_protocol_body,
    sd_sigs, sd_signers, sd_tx, sd_wrapper,
};
use crate::tx::{
    se_body, se_digest, se_event, se_events, se_inner, se_protocol_body,
    se_sigs, se_signers, se_tx, se_wrapper, spec_kind_tag, DecryptedTxV,
    InnerTxV, MultiSignedEventV, ProtocolTxKindV, ProtocolTxV, SigEntry, TxKindV,
    TxV, VextDigestV, WrapperTxV,
};

verus! {

broadcast use crate::codec::lemma_u64_bytes_len;

// ---------------------------------------------------------------------
// Well-formedness: what the canonical encoding can carry
// ---------------------------------------------------------------------

pub open spec fn addrs_sorted(s: Seq<u64>, lo: Option<u64>) -> bool
    decreases s.len(),
{
    if s.len() == 0 {
        true
    } else {
        (match lo {
            None => true,
            Some(l) => s[0] > l,
        }) && addrs_sorted(s.drop_first(), Some(s[0]))
    }
}

pub open spec fn sigs_sorted(s: Seq<SigEntry>, lo: Option<u64>) -> bool
    decreases s.len(),
{
    if s.len() == 0 {
        true
    } else {
        (match lo {
            None => true,
            Some(l) => s[0].addr > l,
        }) && sigs_sorted(s.drop_first(), Some(s[0].addr))
    }
}

pub open spec fn inner_wf(t: InnerTxV) -> bool {
    t.code.len() < 0x1_0000_0000_0000_0000 && t.data.len() < 0x1_0000_0000_0000_0000
}

pub open spec fn wrapper_wf(w: WrapperTxV) -> bool {
    w.ciphertext.len() < 0x1_0000_0000_0000_0000
}

pub open spec fn event_wf(e: MultiSignedEventV) -> bool {
    &&& e.payload.len() < 0x1_0000_0000_0000_0000
    &&& e.signers.len() < 0x1_0000_0000_0000_0000
    &&& addrs_sorted(e.signers, None)
}

pub open spec fn digest_wf(d: VextDigestV) -> bool {
    &&& d.signatures.len() < 0x1_0000_0000_0000_0000
    &&& d.events.len() < 0x1_0000_0000_0000_0000
    &&& sigs_sorted(d.signatures, None)
    &&& forall|i: int| 0 <= i < d.events.len() ==> event_wf(#[trigger] d.events[i])
}

pub open spec fn protocol_wf(p: ProtocolTxV) -> bool {
    match p.kind {
        ProtocolTxKindV::EthereumEvents(d) => digest_wf(d),
        ProtocolTxKindV::Other(k, payload) => k != 0 && payload.len() < 0x1_0000_0000_0000_0000,
    }
}

pub open spec fn decrypted_wf(d: DecryptedTxV) -> bool {
    match d {
        DecryptedTxV::Decrypted(t) => inner_wf(t),
        DecryptedTxV::Undecryptable(w) => wrapper_wf(w),
    }
}

pub open spec fn tx_wf(t: TxV) -> bool {
    match t.kind {
        TxKindV::Raw(i) => inner_wf(i),
        TxKindV::Protocol(p) => protocol_wf(p),
        TxKindV::Decrypted(d) => decrypted_wf(d),
        TxKindV::Wrapper(w) => wrapper_wf(w),
    }
}

// ---------------------------------------------------------------------
// The primitive fields
// ---------------------------------------------------------------------

/// Reading back the little-endian bytes of `v` yields `v`.
pub proof fn lemma_u64_round_trip(v: u64)
    ensures
        spec_u64_of(spec_u64_bytes(v)) == v,
{
    reveal(spec_u64_bytes);
    let x = v as int;
    assert(x == x % 0x100 + 0x100 * (x / 0x100)) by (nonlinear_arith);
    assert(x / 0x100 == (x / 0x100) % 0x100 + 0x100 * (x / 0x1_0000)) by (nonlinear_arith);
    assert(x / 0x1_0000 == (x / 0x1_0000) % 0x100 + 0x100 * (x / 0x100_0000)) by (nonlinear_arith);
    assert(x / 0x100_0000 == (x / 0x100_0000) % 0x100 + 0x100 * (x / 0x1_0000_0000)) by (nonlinear_arith);
    assert(x / 0x1_0000_0000 == (x / 0x1_0000_0000) % 0x100 + 0x100 * (x / 0x100_0000_0000)) by (nonlinear_arith);
    assert(x / 0x100_0000_0000 == (x / 0x100_0000_0000) % 0x100 + 0x100 * (x / 0x1_0000_0000_0000)) by (nonlinear_arith);
    assert(x / 0x1_0000_0000_0000 == (x / 0x1_0000_0000_0000) % 0x100 + 0x100 * (x / 0x100_0000_0000_0000)) by (nonlinear_arith);
    assert(0 <= x / 0x100_0000_0000_0000 < 0x100) by (nonlinear_arith)
        requires
            0 <= x < 0x1_0000_0000_0000_0000,
    ;
}

/// A u64 field parses back out of the middle of any stream.
pub proof fn lemma_rt_u64(pre: Seq<u8>, v: u64, post: Seq<u8>)
    ensures
        sd_u64(pre + spec_u64_bytes(v) + post, pre.len() as int)
            == Some((v, pre.len() as int + 8)),
{
    let b = pre + spec_u64_bytes(v) + post;
    let p = pre.len() as int;
    assert(b.subrange(p, p + 8) =~= spec_u64_bytes(v));
    lemma_u64_round_trip(v);
}

/// A length-prefixed byte string parses back out of the middle of any
/// stream.
pub proof fn lemma_rt_lpbytes(pre: Seq<u8>, s: Seq<u8>, post: Seq<u8>)
    requires
        s.len() < 0x1_0000_0000_0000_0000,
    ensures
        sd_lpbytes(pre + se_lpbytes(s) + post, pre.len() as int)
            == Some((s, pre.len() as int + 8 + s.len())),
{
    let b = pre + se_lpbytes(s) + post;
    let p = pre.len() as int;
    assert(b =~= pre + spec_u64_bytes(s.len() as u64) + (s + post));
    lemma_rt_u64(pre, s.len() as u64, s + post);
    assert(b.subrange(p + 8, p + 8 + s.len() as int) =~= s);
}

// ---------------------------------------------------------------------
// Front decompositions of the back-recursive encoders
// ---------------------------------------------------------------------

pub proof fn lemma_se_signers_first(s: Seq<u64>)
    requires
        s.len() > 0,
    ensures
        se_signers(s) == spec_u64_bytes(s[0]) + se_signers(s.drop_first()),
    decreases s.len(),
{
    if s.len() == 1 {
        assert(s.drop_last() =~= Seq::<u64>::empty());
        assert(s.drop_first() =~= Seq::<u64>::empty());
        assert(se_signers(s) =~= spec_u64_bytes(s[0]) + se_signers(s.drop_first()));
    } else {
        let d = s.drop_last();
        lemma_se_signers_first(d);
        assert(d[0] == s[0]);
        assert(s.drop_first().last() == s.last());
        assert(s.drop_first().drop_last() =~= d.drop_first());
        assert(se_signers(s) =~= spec_u64_bytes(s[0]) + se_signers(s.drop_first()));
    }
}

pub proof fn lemma_se_sigs_first(s: Seq<SigEntry>)
    requires
        s.len() > 0,
    ensures
        se_sigs(s) == spec_u64_bytes(s[0].addr) + spec_u64_bytes(s[0].sig)
            + se_sigs(s.drop_first()),
    decreases s.len(),
{
    if s.len() == 1 {
        assert(s.drop_last() =~= Seq::<SigEntry>::empty());
        assert(s.drop_first() =~= Seq::<SigEntry>::empty());
        assert(se_sigs(s) =~= spec_u64_bytes(s[0].addr) + spec_u64_bytes(s[0].sig)
            + se_sigs(s.drop_first()));
    } else {
        let d = s.drop_last();
        lemma_se_sigs_first(d);
        assert(d[0] == s[0]);
        assert(s.drop_first().last() == s.last());
        assert(s.drop_first().drop_last() =~= d.drop_first());
        assert(se_sigs(s) =~= spec_u64_bytes(s[0].addr) + spec_u64_bytes(s[0].sig)
            + se_sigs(s.drop_first()));
    }
}

pub proof fn lemma_se_events_first(s: Seq<MultiSignedEventV>)
    requires
        s.len() > 0,
    ensures
        se_events(s) == se_event(s[0]) + se_events(s.drop_first()),
    decreases s.len(),
{
    if s.len() == 1 {
        assert(s.drop_last() =~= Seq::<MultiSignedEventV>::empty());
        assert(s.drop_first() =~= Seq::<MultiSignedEventV>::empty());
        assert(se_events(s) =~= se_event(s[0]) + se_events(s.drop_first()));
    } else {
        let d = s.drop_last();
        lemma_se_events_first(d);
        assert(d[0] == s[0]);
        assert(s.drop_first().last() == s.last());
        assert(s.drop_first().drop_last() =~= d.drop_first());
        assert(se_events(s) =~= se_event(s[0]) + se_events(s.drop_first()));
    }
}

// ---------------------------------------------------------------------
// The structures
// ---------------------------------------------------------------------

#[verifier::rlimit(100)]
pub proof fn lemma_rt_signers(pre: Seq<u8>, s: Seq<u64>, post: Seq<u8>, lo: Option<u64>)
    requires
        s.len() < 0x1_0000_0000_0000_0000,
        addrs_sorted(s, lo),
    ensures
        sd_signers(pre + se_signers(s) + post, pre.len() as int, s.len() as u64, lo)
            == Some((s, pre.len() as int + se_signers(s).len())),
    decreases s.len(),
{
    let b = pre + se_signers(s) + post;
    if s.len() == 0 {
        assert(b =~= pre + post);
        assert(s =~= Seq::<u64>::empty());
    } else {
        lemma_se_signers_first(s);
        let rest = s.drop_first();
        let pre1 = pre + spec_u64_bytes(s[0]);
        assert(b =~= pre + spec_u64_bytes(s[0]) + (se_signers(rest) + post));
        lemma_rt_u64(pre, s[0], se_signers(rest) + post);
        assert(b =~= pre1 + se_signers(rest) + post);
        lemma_rt_signers(pre1, rest, post, Some(s[0]));
        assert(seq![s[0]] + rest =~= s);
    }
}

#[verifier::rlimit(100)]
pub proof fn lemma_rt_sigs(pre: Seq<u8>, s: Seq<SigEntry>, post: Seq<u8>, lo: Option<u64>)
    requires
        s.len() < 0x1_0000_0000_0000_0000,
        sigs_sorted(s, lo),
    ensures
        sd_sigs(pre + se_sigs(s) + post, pre.len() as int, s.len() as u64, lo)
            == Some((s, pre.len() as int + se_sigs(s).len())),
    decreases s.len(),
{
    let b = pre + se_sigs(s) + post;
    if s.len() == 0 {
        assert(b =~= pre + post);
        assert(s =~= Seq::<SigEntry>::empty());
    } else {
        lemma_se_sigs_first(s);
        let rest = s.drop_first();
        let pre1 = pre + spec_u64_bytes(s[0].addr);
        let pre2 = pre1 + spec_u64_bytes(s[0].sig);
        assert(b =~= pre + spec_u64_bytes(s[0].addr)
            + (spec_u64_bytes(s[0].sig) + se_sigs(rest) + post));
        lemma_rt_u64(pre, s[0].addr, spec_u64_bytes(s[0].sig) + se_sigs(rest) + post);
        assert(b =~= pre1 + spec_u64_bytes(s[0].sig) + (se_sigs(rest) + post));
        lemma_rt_u64(pre1, s[0].sig, se_sigs(rest) + post);
        assert(b =~= pre2 + se_sigs(rest) + post);
        lemma_rt_sigs(pre2, rest, post, Some(s[0].addr));
        assert(seq![s[0]] + rest =~= s);
    }
}

#[verifier::rlimit(100)]
pub proof fn lemma_rt_event(pre: Seq<u8>, e: MultiSignedEventV, post: Seq<u8>)
    requires
        event_wf(e),
    ensures
        sd_event(pre + se_event(e) + post, pre.len() as int)
            == Some((e, pre.len() as int + se_event(e).len())),
{
    let b = pre + se_event(e) + post;
    let pre1 = pre + se_lpbytes(e.payload);
    let pre2 = pre1 + spec_u64_bytes(e.signers.len() as u64);
    assert(b =~= pre + se_lpbytes(e.payload)
        + (spec_u64_bytes(e.signers.len() as u64) + se_signers(e.signers) + post));
    lemma_rt_lpbytes(pre, e.payload,
        spec_u64_bytes(e.signers.len() as u64) + se_signers(e.signers) + post);
    assert(b =~= pre1 + spec_u64_bytes(e.signers.len() as u64)
        + (se_signers(e.signers) + post));
    lemma_rt_u64(pre1, e.signers.len() as u64, se_signers(e.signers) + post);
    assert(b =~= pre2 + se_signers(e.signers) + post);
    lemma_rt_signers(pre2, e.signers, post, None);
    assert((MultiSignedEventV { payload: e.payload, signers: e.signers }) =~= e);
}

#[verifier::rlimit(100)]
pub proof fn lemma_rt_events(pre: Seq<u8>, s: Seq<MultiSignedEventV>, post: Seq<u8>)
    requires
        s.len() < 0x1_0000_0000_0000_0000,
        forall|i: int| 0 <= i < s.len() ==> event_wf(#[trigger] s[i]),
    ensures
        sd_events(pre + se_events(s) + post, pre.len() as int, s.len() as u64)
            == Some((s, pre.len() as int + se_events(s).len())),
    decreases s.len(),
{
    let b = pre + se_events(s) + post;
    if s.len() == 0 {
        assert(b =~= pre + post);
        assert(s =~= Seq::<MultiSignedEventV>::empty());
    } else {
        lemma_se_events_first(s);
        let rest = s.drop_first();
        let pre1 = pre + se_event(s[0]);
        assert(b =~= pre + se_event(s[0]) + (se_events(rest) + post));
        lemma_rt_event(pre, s[0], se_events(rest) + post);
        assert(b =~= pre1 + se_events(rest) + post);
        assert(forall|i: int| 0 <= i < rest.len() ==> event_wf(#[trigger] rest[i]));
        lemma_rt_events(pre1, rest, post);
        assert(seq![s[0]] + rest =~= s);
    }
}

#[verifier::rlimit(100)]
pub proof fn lemma_rt_inner(pre: Seq<u8>, t: InnerTxV, post: Seq<u8>)
    requires
        inner_wf(t),
    ensures
        sd_inner(pre + se_inner(t) + post, pre.len() as int)
            == Some((t, pre.len() as int + se_inner(t).len())),
{
    let b = pre + se_inner(t) + post;
    let pre1 = pre + se_lpbytes(t.code);
    assert(b =~= pre + se_lpbytes(t.code) + (se_lpbytes(t.data) + post));
    lemma_rt_lpbytes(pre, t.code, se_lpbytes(t.data) + post);
    assert(b =~= pre1 + se_lpbytes(t.data) + post);
    lemma_rt_lpbytes(pre1, t.data, post);
    assert((InnerTxV { code: t.code, data: t.data }) =~= t);
}

#[verifier::rlimit(100)]
pub proof fn lemma_rt_wrapper(pre: Seq<u8>, w: WrapperTxV, post: Seq<u8>)
    requires
        wrapper_wf(w),
    ensures
        sd_wrapper(pre + se_wrapper(w) + post, pre.len() as int)
            == Some((w, pre.len() as int + se_wrapper(w).len())),
{
    let b = pre + se_wrapper(w) + post;
    let pre1 = pre + spec_u64_bytes(w.fee.amount);
    let pre2 = pre1 + spec_u64_bytes(w.fee.token);
    let pre3 = pre2 + spec_u64_bytes(w.fee_payer_pk);
    let pre4 = pre3 + spec_u64_bytes(w.epoch);
    let pre5 = pre4 + spec_u64_bytes(w.gas_limit);
    let pre6 = pre5 + spec_u64_bytes(w.tx_hash);
    assert(b =~= pre + spec_u64_bytes(w.fee.amount) + (spec_u64_bytes(w.fee.token)
        + spec_u64_bytes(w.fee_payer_pk) + spec_u64_bytes(w.epoch)
        + spec_u64_bytes(w.gas_limit) + spec_u64_bytes(w.tx_hash)
        + se_lpbytes(w.ciphertext) + post));
    lemma_rt_u64(pre, w.fee.amount, spec_u64_bytes(w.fee.token)
        + spec_u64_bytes(w.fee_payer_pk) + spec_u64_bytes(w.epoch)
        + spec_u64_bytes(w.gas_limit) + spec_u64_bytes(w.tx_hash)
        + se_lpbytes(w.ciphertext) + post);
    assert(b =~= pre1 + spec_u64_bytes(w.fee.token) + (spec_u64_bytes(w.fee_payer_pk)
        + spec_u64_bytes(w.epoch) + spec_u64_bytes(w.gas_limit)
        + spec_u64_bytes(w.tx_hash) + se_lpbytes(w.ciphertext) + post));
    lemma_rt_u64(pre1, w.fee.token, spec_u64_bytes(w.fee_payer_pk)
        + spec_u64_bytes(w.epoch) + spec_u64_bytes(w.gas_limit)
        + spec_u64_bytes(w.tx_hash) + se_lpbytes(w.ciphertext) + post);
    assert(b =~= pre2 + spec_u64_bytes(w.fee_payer_pk) + (spec_u64_bytes(w.epoch)
        + spec_u64_bytes(w.gas_limit) + spec_u64_bytes(w.tx_hash)
        + se_lpbytes(w.ciphertext) + post));
    lemma_rt_u64(pre2, w.fee_payer_pk, spec_u64_bytes(w.epoch)
        + spec_u64_bytes(w.gas_limit) + spec_u64_bytes(w.tx_hash)
        + se_lpbytes(w.ciphertext) + post);
    assert(b =~= pre3 + spec_u64_bytes(w.epoch) + (spec_u64_bytes(w.gas_limit)
        + spec_u64_bytes(w.tx_hash) + se_lpbytes(w.ciphertext) + post));
    lemma_rt_u64(pre3, w.epoch, spec_u64_bytes(w.gas_limit)
        + spec_u64_bytes(w.tx_hash) + se_lpbytes(w.ciphertext) + post);
    assert(b =~= pre4 + spec_u64_bytes(w.gas_limit) + (spec_u64_bytes(w.tx_hash)
        + se_lpbytes(w.ciphertext) + post));
    lemma_rt_u64(pre4, w.gas_limit, spec_u64_bytes(w.tx_hash)
        + se_lpbytes(w.ciphertext) + post);
    assert(b =~= pre5 + spec_u64_bytes(w.tx_hash) + (se_lpbytes(w.ciphertext) + post));
    lemma_rt_u64(pre5, w.tx_hash, se_lpbytes(w.ciphertext) + post);
    assert(b =~= pre6 + se_lpbytes(w.ciphertext) + post);
    lemma_rt_lpbytes(pre6, w.ciphertext, post);
    assert((WrapperTxV {
        fee: crate::tx::Fee { amount: w.fee.amount, token: w.fee.token },
        fee_payer_pk: w.fee_payer_pk,
        epoch: w.epoch,
        gas_limit: w.gas_limit,
        tx_hash: w.tx_hash,
        ciphertext: w.ciphertext,
    }) =~= w);
}

#[verifier::rlimit(100)]
pub proof fn lemma_rt_digest(pre: Seq<u8>, d: VextDigestV, post: Seq<u8>)
    requires
        digest_wf(d),
    ensures
        sd_digest(pre + se_digest(d) + post, pre.len() as int)
            == Some((d, pre.len() as int + se_digest(d).len())),
{
    let b = pre + se_digest(d) + post;
    let pre1 = pre + spec_u64_bytes(d.signatures.len() as u64);
    let pre2 = pre1 + se_sigs(d.signatures);
    let pre3 = pre2 + spec_u64_bytes(d.events.len() as u64);
    assert(b =~= pre + spec_u64_bytes(d.signatures.len() as u64) + (se_sigs(d.signatures)
        + spec_u64_bytes(d.events.len() as u64) + se_events(d.events) + post));
    lemma_rt_u64(pre, d.signatures.len() as u64, se_sigs(d.signatures)
        + spec_u64_bytes(d.events.len() as u64) + se_events(d.events) + post);
    assert(b =~= pre1 + se_sigs(d.signatures) + (spec_u64_bytes(d.events.len() as u64)
        + se_events(d.events) + post));
    lemma_rt_sigs(pre1, d.signatures, spec_u64_bytes(d.events.len() as u64)
        + se_events(d.events) + post, None);
    assert(b =~= pre2 + spec_u64_bytes(d.events.len() as u64) + (se_events(d.events) + post));
    lemma_rt_u64(pre2, d.events.len() as u64, se_events(d.events) + post);
    assert(b =~= pre3 + se_events(d.events) + post);
    lemma_rt_events(pre3, d.events, post);
    assert((VextDigestV { signatures: d.signatures, events: d.events }) =~= d);
}

#[verifier::rlimit(100)]
proof fn lemma_rt_protocol_events(pre: Seq<u8>, t: ProtocolTxV, d: VextDigestV, post: Seq<u8>)
    requires
        protocol_wf(t),
        t.kind == ProtocolTxKindV::EthereumEvents(d),
    ensures
        sd_protocol_body(pre + se_protocol_body(t) + post, pre.len() as int)
            == Some((t, pre.len() as int + se_protocol_body(t).len())),
{
    let b = pre + se_protocol_body(t) + post;
    let pre1 = pre + spec_u64_bytes(t.pk);
    let pre2 = pre1 + spec_u64_bytes(0);
    assert(b =~= pre + spec_u64_bytes(t.pk)
        + (spec_u64_bytes(0) + se_digest(d) + post));
    lemma_rt_u64(pre, t.pk, spec_u64_bytes(0) + se_digest(d) + post);
    assert(b =~= pre1 + spec_u64_bytes(0) + (se_digest(d) + post));
    lemma_rt_u64(pre1, 0, se_digest(d) + post);
    assert(b =~= pre2 + se_digest(d) + post);
    lemma_rt_digest(pre2, d, post);
    assert((ProtocolTxV { pk: t.pk, kind: ProtocolTxKindV::EthereumEvents(d) }) =~= t);
}

#[verifier::rlimit(100)]
proof fn lemma_rt_protocol_other(pre: Seq<u8>, t: ProtocolTxV, k: u64, payload: Seq<u8>, post: Seq<u8>)
    requires
        protocol_wf(t),
        t.kind == ProtocolTxKindV::Other(k, payload),
    ensures
        sd_protocol_body(pre + se_protocol_body(t) + post, pre.len() as int)
            == Some((t, pre.len() as int + se_protocol_body(t).len())),
{
    let b = pre + se_protocol_body(t) + post;
    let pre1 = pre + spec_u64_bytes(t.pk);
    let pre2 = pre1 + spec_u64_bytes(k);
    assert(b =~= pre + spec_u64_bytes(t.pk)
        + (spec_u64_bytes(k) + se_lpbytes(payload) + post));
    lemma_rt_u64(pre, t.pk, spec_u64_bytes(k) + se_lpbytes(payload) + post);
    assert(b =~= pre1 + spec_u64_bytes(k) + (se_lpbytes(payload) + post));
    lemma_rt_u64(pre1, k, se_lpbytes(payload) + post);
    assert(b =~= pre2 + se_lpbytes(payload) + post);
    lemma_rt_lpbytes(pre2, payload, post);
    assert((ProtocolTxV { pk: t.pk, kind: ProtocolTxKindV::Other(k, payload) }) =~= t);
}

pub proof fn lemma_rt_protocol(pre: Seq<u8>, t: ProtocolTxV, post: Seq<u8>)
    requires
        protocol_wf(t),
    ensures
        sd_protocol_body(pre + se_protocol_body(t) + post, pre.len() as int)
            == Some((t, pre.len() as int + se_protocol_body(t).len())),
{
    match t.kind {
        ProtocolTxKindV::EthereumEvents(d) => {
            lemma_rt_protocol_events(pre, t, d, post);
        },
        ProtocolTxKindV::Other(k, payload) => {
            lemma_rt_protocol_other(pre, t, k, payload, post);
        },
    }
}

#[verifier::rlimit(100)]
pub proof fn lemma_rt_decrypted(pre: Seq<u8>, d: DecryptedTxV, post: Seq<u8>)
    requires
        decrypted_wf(d),
    ensures
        sd_decrypted(pre + se_body(TxKindV::Decrypted(d)) + post, pre.len() as int)
            == Some((d, pre.len() as int + se_body(TxKindV::Decrypted(d)).len())),
{
    let b = pre + se_body(TxKindV::Decrypted(d)) + post;
    let p = pre.len() as int;
    match d {
        DecryptedTxV::Decrypted(t) => {
            let pre1 = pre + seq![0u8];
            assert(b[p] == 0);
            assert(b =~= pre1 + se_inner(t) + post);
            lemma_rt_inner(pre1, t, post);
        },
        DecryptedTxV::Undecryptable(w) => {
            let pre1 = pre + seq![1u8];
            assert(b[p] == 1);
            assert(b =~= pre1 + se_wrapper(w) + post);
            lemma_rt_wrapper(pre1, w, post);
        },
    }
}

/// The round trip itself: the canonical bytes of a well-formed
/// transaction decode to exactly that transaction.
#[verifier::rlimit(100)]
pub proof fn lemma_decode_encode(t: TxV)
    requires
        tx_wf(t),
    ensures
        sd_tx(se_tx(t)) == Some(t),
{
    let b = se_tx(t);
    let tag = spec_kind_tag(t.kind);
    let body = se_body(t.kind);
    assert(b[0] == tag);
    let pre1: Seq<u8> = match t.sig {
        None => {
            assert(b[1] == 0);
            seq![tag] + seq![0u8]
        },
        Some(sg) => {
            assert(b[1] == 1);
            let h = seq![tag] + seq![1u8];
            assert(b =~= h + spec_u64_bytes(sg) + body);
            lemma_rt_u64(h, sg, body);
            h + spec_u64_bytes(sg)
        },
    };
    assert(b =~= pre1 + body + Seq::<u8>::empty());
    match t.kind {
        TxKindV::Raw(i) => {
            lemma_rt_inner(pre1, i, Seq::<u8>::empty());
        },
        TxKindV::Protocol(p) => {
            lemma_rt_protocol(pre1, p, Seq::<u8>::empty());
        },
        TxKindV::Decrypted(d) => {
            lemma_rt_decrypted(pre1, d, Seq::<u8>::empty());
        },
        TxKindV::Wrapper(w) => {
            lemma_rt_wrapper(pre1, w, Seq::<u8>::empty());
        },
    }
    assert(pre1.len() + body.len() == b.len());
    assert((TxV { kind: t.kind, sig: t.sig }) =~= t);
}

} // verus!
