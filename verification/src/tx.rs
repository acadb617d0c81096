//! The transaction data model: the four tagged transaction kinds, their
//! ghost mirrors used in contracts, and the canonical byte encoding.

use vstd::prelude::*;
use crate::codec::{
    se_lpbytes, spec_u64_bytes, write_lpbytes, write_u64,
};

verus! {

broadcast use crate::codec::lemma_u64_bytes_len;

// ---------------------------------------------------------------------
// Data types and their ghost mirrors
// ---------------------------------------------------------------------

/// The fee a wrapper transaction offers: an amount of a token.
#[derive(Clone, Copy, PartialEq, Eq, Structural, Debug)]
pub struct Fee {
    pub amount: u64,
    pub token: u64,
}

/// The outer, fee-paying, signed envelope around an encrypted inner
/// transaction. Created by a client and never mutated here.
#[derive(Clone, Debug)]
pub struct WrapperTx {
    pub fee: Fee,
    pub fee_payer_pk: u64,
    pub epoch: u64,
    pub gas_limit: u64,
    /// Commitment to the plaintext the ciphertext is expected to
    /// decrypt to.
    pub tx_hash: u64,
    pub ciphertext: Vec<u8>,
}

#[verifier::ext_equal]
pub struct WrapperTxV {
    pub fee: Fee,
    pub fee_payer_pk: u64,
    pub epoch: u64,
    pub gas_limit: u64,
    pub tx_hash: u64,
    pub ciphertext: Seq<u8>,
}

impl View for WrapperTx {
    type V = WrapperTxV;

    open spec fn view(&self) -> WrapperTxV {
        WrapperTxV {
            fee: self.fee,
            fee_payer_pk: self.fee_payer_pk,
            epoch: self.epoch,
            gas_limit: self.gas_limit,
            tx_hash: self.tx_hash,
            ciphertext: self.ciphertext@,
        }
    }
}

/// A plaintext inner transaction: some code and some data.
#[derive(Clone, Debug)]
pub struct InnerTx {
    pub code: Vec<u8>,
    pub data: Vec<u8>,
}

#[verifier::ext_equal]
pub struct InnerTxV {
    pub code: Seq<u8>,
    pub data: Seq<u8>,
}

impl View for InnerTx {
    type V = InnerTxV;

    open spec fn view(&self) -> InnerTxV {
        InnerTxV { code: self.code@, data: self.data@ }
    }
}

/// The decryption stage's verdict on one queued wrapper: either the
/// plaintext inner transaction, or the original wrapper marked as
/// impossible to decrypt.
#[derive(Clone, Debug)]
pub enum DecryptedTx {
    Decrypted(InnerTx),
    Undecryptable(WrapperTx),
}

#[verifier::ext_equal]
pub enum DecryptedTxV {
    Decrypted(InnerTxV),
    Undecryptable(WrapperTxV),
}

impl View for DecryptedTx {
    type V = DecryptedTxV;

    open spec fn view(&self) -> DecryptedTxV {
        match self {
            DecryptedTx::Decrypted(t) => DecryptedTxV::Decrypted(t@),
            DecryptedTx::Undecryptable(w) => DecryptedTxV::Undecryptable(w@),
        }
    }
}

/// One validator's entry in a digest's signature map.
#[derive(Clone, Copy, PartialEq, Eq, Structural, Debug)]
pub struct SigEntry {
    pub addr: u64,
    pub sig: u64,
}

/// One observed event together with the set of validators attesting it.
#[derive(Clone, Debug)]
pub struct MultiSignedEvent {
    pub payload: Vec<u8>,
    pub signers: Vec<u64>,
}

#[verifier::ext_equal]
pub struct MultiSignedEventV {
    pub payload: Seq<u8>,
    pub signers: Seq<u64>,
}

impl View for MultiSignedEvent {
    type V = MultiSignedEventV;

    open spec fn view(&self) -> MultiSignedEventV {
        MultiSignedEventV { payload: self.payload@, signers: self.signers@ }
    }
}

/// The compressed aggregate of many validators' vote extensions: one
/// signature per validator (addresses strictly increasing on the wire,
/// so each validator appears at most once), plus the ordered list of
/// events with each event's signer set.
#[derive(Clone, Debug)]
pub struct VextDigest {
    pub signatures: Vec<SigEntry>,
    pub events: Vec<MultiSignedEvent>,
}

#[verifier::ext_equal]
pub struct VextDigestV {
    pub signatures: Seq<SigEntry>,
    pub events: Seq<MultiSignedEventV>,
}

impl View for VextDigest {
    type V = VextDigestV;

    open spec fn view(&self) -> VextDigestV {
        VextDigestV {
            signatures: self.signatures@,
            events: self.events@.map_values(|e: MultiSignedEvent| e@),
        }
    }
}

/// The payload of a protocol transaction: a vote-extension digest, or
/// some other protocol kind this stage does not support.
#[derive(Clone, Debug)]
pub enum ProtocolTxKind {
    EthereumEvents(VextDigest),
    Other(u64, Vec<u8>),
}

#[verifier::ext_equal]
pub enum ProtocolTxKindV {
    EthereumEvents(VextDigestV),
    Other(u64, Seq<u8>),
}

impl View for ProtocolTxKind {
    type V = ProtocolTxKindV;

    open spec fn view(&self) -> ProtocolTxKindV {
        match self {
            ProtocolTxKind::EthereumEvents(d) => ProtocolTxKindV::EthereumEvents(d@),
            ProtocolTxKind::Other(k, payload) => ProtocolTxKindV::Other(*k, payload@),
        }
    }
}

/// A protocol transaction: the submitting validator's protocol key and
/// the payload it signed.
#[derive(Clone, Debug)]
pub struct ProtocolTx {
    pub pk: u64,
    pub kind: ProtocolTxKind,
}

#[verifier::ext_equal]
pub struct ProtocolTxV {
    pub pk: u64,
    pub kind: ProtocolTxKindV,
}

impl View for ProtocolTx {
    type V = ProtocolTxV;

    open spec fn view(&self) -> ProtocolTxV {
        ProtocolTxV { pk: self.pk, kind: self.kind@ }
    }
}

/// The four transaction kinds a proposal can carry.
#[derive(Clone, Debug)]
pub enum TxKind {
    Raw(InnerTx),
    Protocol(ProtocolTx),
    Decrypted(DecryptedTx),
    Wrapper(WrapperTx),
}

#[verifier::ext_equal]
pub enum TxKindV {
    Raw(InnerTxV),
    Protocol(ProtocolTxV),
    Decrypted(DecryptedTxV),
    Wrapper(WrapperTxV),
}

impl View for TxKind {
    type V = TxKindV;

    open spec fn view(&self) -> TxKindV {
        match self {
            TxKind::Raw(t) => TxKindV::Raw(t@),
            TxKind::Protocol(p) => TxKindV::Protocol(p@),
            TxKind::Decrypted(d) => TxKindV::Decrypted(d@),
            TxKind::Wrapper(w) => TxKindV::Wrapper(w@),
        }
    }
}

/// A decoded transaction envelope: the kind plus the optional outer
/// signature over the kind's body encoding.
#[derive(Clone, Debug)]
pub struct Tx {
    pub kind: TxKind,
    pub sig: Option<u64>,
}

#[verifier::ext_equal]
pub struct TxV {
    pub kind: TxKindV,
    pub sig: Option<u64>,
}

impl View for Tx {
    type V = TxV;

    open spec fn view(&self) -> TxV {
        TxV { kind: self.kind@, sig: self.sig }
    }
}

// ---------------------------------------------------------------------
// Canonical encoding, specification side
// ---------------------------------------------------------------------

pub open spec fn se_inner(t: InnerTxV) -> Seq<u8> {
    se_lpbytes(t.code) + se_lpbytes(t.data)
}

pub open spec fn se_wrapper(w: WrapperTxV) -> Seq<u8> {
    spec_u64_bytes(w.fee.amount) + spec_u64_bytes(w.fee.token)
        + spec_u64_bytes(w.fee_payer_pk) + spec_u64_bytes(w.epoch)
        + spec_u64_bytes(w.gas_limit) + spec_u64_bytes(w.tx_hash)
        + se_lpbytes(w.ciphertext)
}

pub open spec fn se_sigs(s: Seq<SigEntry>) -> Seq<u8>
    decreases s.len(),
{
    if s.len() == 0 {
        Seq::empty()
    } else {
        se_sigs(s.drop_last()) + spec_u64_bytes(s.last().addr)
            + spec_u64_bytes(s.last().sig)
    }
}

pub open spec fn se_signers(s: Seq<u64>) -> Seq<u8>
    decreases s.len(),
{
    if s.len() == 0 {
        Seq::empty()
    } else {
        se_signers(s.drop_last()) + spec_u64_bytes(s.last())
    }
}

pub open spec fn se_event(e: MultiSignedEventV) -> Seq<u8> {
    se_lpbytes(e.payload) + spec_u64_bytes(e.signers.len() as u64)
        + se_signers(e.signers)
}

pub open spec fn se_events(s: Seq<MultiSignedEventV>) -> Seq<u8>
    decreases s.len(),
{
    if s.len() == 0 {
        Seq::empty()
    } else {
        se_events(s.drop_last()) + se_event(s.last())
    }
}

pub open spec fn se_digest(d: VextDigestV) -> Seq<u8> {
    spec_u64_bytes(d.signatures.len() as u64) + se_sigs(d.signatures)
        + spec_u64_bytes(d.events.len() as u64) + se_events(d.events)
}

pub open spec fn se_protocol_body(p: ProtocolTxV) -> Seq<u8> {
    spec_u64_bytes(p.pk) + (match p.kind {
        ProtocolTxKindV::EthereumEvents(d) => spec_u64_bytes(0) + se_digest(d),
        ProtocolTxKindV::Other(k, payload) => spec_u64_bytes(k) + se_lpbytes(payload),
    })
}

/// The body bytes of a kind: what the outer signature covers.
pub open spec fn se_body(k: TxKindV) -> Seq<u8> {
    match k {
        TxKindV::Raw(t) => se_inner(t),
        TxKindV::Protocol(p) => se_protocol_body(p),
        TxKindV::Decrypted(d) => match d {
            DecryptedTxV::Decrypted(t) => seq![0u8] + se_inner(t),
            DecryptedTxV::Undecryptable(w) => seq![1u8] + se_wrapper(w),
        },
        TxKindV::Wrapper(w) => se_wrapper(w),
    }
}

pub open spec fn spec_kind_tag(k: TxKindV) -> u8 {
    match k {
        TxKindV::Raw(_) => 0,
        TxKindV::Protocol(_) => 1,
        TxKindV::Decrypted(_) => 2,
        TxKindV::Wrapper(_) => 3,
    }
}

/// The full envelope encoding: kind tag, signature flag and optional
/// signature field, then the body.
pub open spec fn se_tx(t: TxV) -> Seq<u8> {
    seq![spec_kind_tag(t.kind)] + (match t.sig {
        None => seq![0u8],
        Some(s) => seq![1u8] + spec_u64_bytes(s),
    }) + se_body(t.kind)
}

// ---------------------------------------------------------------------
// Canonical encoding, executable side
// ---------------------------------------------------------------------

pub fn write_inner(out: &mut Vec<u8>, t: &InnerTx)
    ensures
        final(out)@ == old(out)@ + se_inner(t@),
{
    write_lpbytes(out, &t.code);
    write_lpbytes(out, &t.data);
    proof {
        assert(out@ =~= old(out)@ + se_inner(t@));
    }
}

#[verifier::rlimit(50)]
pub fn write_wrapper(out: &mut Vec<u8>, w: &WrapperTx)
    ensures
        final(out)@ == old(out)@ + se_wrapper(w@),
{
    write_u64(out, w.fee.amount);
    write_u64(out, w.fee.token);
    write_u64(out, w.fee_payer_pk);
    write_u64(out, w.epoch);
    write_u64(out, w.gas_limit);
    write_u64(out, w.tx_hash);
    write_lpbytes(out, &w.ciphertext);
    proof {
        assert(out@ =~= old(out)@ + se_wrapper(w@));
    }
}

pub fn write_sigs(out: &mut Vec<u8>, s: &Vec<SigEntry>)
    ensures
        final(out)@ == old(out)@ + se_sigs(s@),
{
    let mut i: usize = 0;
    while i < s.len()
        invariant
            i <= s@.len(),
            out@ == old(out)@ + se_sigs(s@.take(i as int)),
        decreases s@.len() - i,
    {
        write_u64(out, s[i].addr);
        write_u64(out, s[i].sig);
        proof {
            assert(s@.take(i as int + 1).drop_last() =~= s@.take(i as int));
            assert(s@.take(i as int + 1).last() == s@[i as int]);
            assert(out@ =~= old(out)@ + se_sigs(s@.take(i as int + 1)));
        }
        i = i + 1;
    }
    proof {
        assert(s@.take(s@.len() as int) =~= s@);
    }
}

pub fn write_signers(out: &mut Vec<u8>, s: &Vec<u64>)
    ensures
        final(out)@ == old(out)@ + se_signers(s@),
{
    let mut i: usize = 0;
    while i < s.len()
        invariant
            i <= s@.len(),
            out@ == old(out)@ + se_signers(s@.take(i as int)),
        decreases s@.len() - i,
    {
        write_u64(out, s[i]);
        proof {
            assert(s@.take(i as int + 1).drop_last() =~= s@.take(i as int));
            assert(s@.take(i as int + 1).last() == s@[i as int]);
            assert(out@ =~= old(out)@ + se_signers(s@.take(i as int + 1)));
        }
        i = i + 1;
    }
    proof {
        assert(s@.take(s@.len() as int) =~= s@);
    }
}

pub fn write_event(out: &mut Vec<u8>, e: &MultiSignedEvent)
    ensures
        final(out)@ == old(out)@ + se_event(e@),
{
    write_lpbytes(out, &e.payload);
    write_u64(out, e.signers.len() as u64);
    write_signers(out, &e.signers);
    proof {
        assert(out@ =~= old(out)@ + se_event(e@));
    }
}

pub fn write_events(out: &mut Vec<u8>, s: &Vec<MultiSignedEvent>)
    ensures
        final(out)@ == old(out)@ + se_events(s@.map_values(|e: MultiSignedEvent| e@)),
{
    let ghost sv = s@.map_values(|e: MultiSignedEvent| e@);
    let mut i: usize = 0;
    while i < s.len()
        invariant
            i <= s@.len(),
            sv == s@.map_values(|e: MultiSignedEvent| e@),
            out@ == old(out)@ + se_events(sv.take(i as int)),
        decreases s@.len() - i,
    {
        write_event(out, &s[i]);
        proof {
            assert(sv.take(i as int + 1).drop_last() =~= sv.take(i as int));
            assert(sv.take(i as int + 1).last() == sv[i as int]);
            assert(sv[i as int] == s@[i as int]@);
            assert(out@ =~= old(out)@ + se_events(sv.take(i as int + 1)));
        }
        i = i + 1;
    }
    proof {
        assert(sv.take(sv.len() as int) =~= sv);
    }
}

pub fn write_digest(out: &mut Vec<u8>, d: &VextDigest)
    ensures
        final(out)@ == old(out)@ + se_digest(d@),
{
    write_u64(out, d.signatures.len() as u64);
    write_sigs(out, &d.signatures);
    write_u64(out, d.events.len() as u64);
    write_events(out, &d.events);
    proof {
        assert(out@ =~= old(out)@ + se_digest(d@));
    }
}

pub fn write_protocol_body(out: &mut Vec<u8>, p: &ProtocolTx)
    ensures
        final(out)@ == old(out)@ + se_protocol_body(p@),
{
    write_u64(out, p.pk);
    match &p.kind {
        ProtocolTxKind::EthereumEvents(d) => {
            write_u64(out, 0);
            write_digest(out, d);
        },
        ProtocolTxKind::Other(k, payload) => {
            write_u64(out, *k);
            write_lpbytes(out, payload);
        },
    }
    proof {
        assert(out@ =~= old(out)@ + se_protocol_body(p@));
    }
}

/// The body bytes of a kind, as a fresh vector: the message an outer
/// signature is computed over.
pub fn encode_body(k: &TxKind) -> (r: Vec<u8>)
    ensures
        r@ == se_body(k@),
{
    let mut out: Vec<u8> = Vec::new();
    match k {
        TxKind::Raw(t) => {
            write_inner(&mut out, t);
        },
        TxKind::Protocol(p) => {
            write_protocol_body(&mut out, p);
        },
        TxKind::Decrypted(d) => {
            match d {
                DecryptedTx::Decrypted(t) => {
                    out.push(0);
                    write_inner(&mut out, t);
                },
                DecryptedTx::Undecryptable(w) => {
                    out.push(1);
                    write_wrapper(&mut out, w);
                },
            }
        },
        TxKind::Wrapper(w) => {
            write_wrapper(&mut out, w);
        },
    }
    proof {
        assert(out@ =~= se_body(k@));
    }
    out
}

/// Encode an inner transaction alone: the plaintext bytes that the
/// commitment hash is computed over.
pub fn encode_inner(t: &InnerTx) -> (r: Vec<u8>)
    ensures
        r@ == se_inner(t@),
{
    let mut out: Vec<u8> = Vec::new();
    write_inner(&mut out, t);
    proof {
        assert(out@ =~= se_inner(t@));
    }
    out
}

/// Encode a wrapper body alone: the message its outer signature covers.
pub fn encode_wrapper(w: &WrapperTx) -> (r: Vec<u8>)
    ensures
        r@ == se_wrapper(w@),
{
    let mut out: Vec<u8> = Vec::new();
    write_wrapper(&mut out, w);
    proof {
        assert(out@ =~= se_wrapper(w@));
    }
    out
}

/// Encode a full transaction envelope into proposal bytes.
pub fn encode_tx(t: &Tx) -> (r: Vec<u8>)
    ensures
        r@ == se_tx(t@),
{
    let mut out: Vec<u8> = Vec::new();
    match &t.kind {
        TxKind::Raw(_) => out.push(0),
        TxKind::Protocol(_) => out.push(1),
        TxKind::Decrypted(_) => out.push(2),
        TxKind::Wrapper(_) => out.push(3),
    }
    match &t.sig {
        None => out.push(0),
        Some(s) => {
            out.push(1);
            write_u64(&mut out, *s);
        },
    }
    let body = encode_body(&t.kind);
    let mut i: usize = 0;
    let ghost head = out@;
    while i < body.len()
        invariant
            i <= body@.len(),
            out@ == head + body@.subrange(0, i as int),
        decreases body@.len() - i,
    {
        out.push(body[i]);
        proof {
            assert(out@ =~= head + body@.subrange(0, i as int + 1));
        }
        i = i + 1;
    }
    proof {
        assert(body@.subrange(0, body@.len() as int) =~= body@);
        assert(out@ =~= se_tx(t@));
    }
    out
}

} // verus!
