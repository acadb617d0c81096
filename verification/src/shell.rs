//! The proposal orchestrator: classify every transaction of a proposal,
//! dispatch it to the matching validator, thread the decrypted-order
//! cursor and the digest counter through the pass, and fold all
//! per-transaction outcomes into one accept/reject verdict.

use vstd::prelude::*;
use crate::codec::{
    hash_tx, keyed_tag, spec_ciphertext_wf, spec_decrypt, spec_hash_tx,
    spec_keyed_tag, validate_ciphertext, decrypt,
};
use crate::codes::{spec_recoverable, ErrorCodes, TxResult};
use crate::decode::{decode_tx, rd_inner, sd_inner, sd_tx};
use crate::storage::{spec_balance, BalanceEntry, Storage};
use crate::tx::{
    encode_body, encode_inner, se_inner, se_protocol_body, se_wrapper,
    DecryptedTx, DecryptedTxV, ProtocolTxKind, ProtocolTxKindV, TxKind,
    TxKindV, TxV, WrapperTx, WrapperTxV,
};
use crate::vote_ext::{spec_all_vexts_valid, spec_digest_code, spec_signer_power_sum, validate_vext_digest};

verus! {

// ---------------------------------------------------------------------
// The decrypted-order checker
// ---------------------------------------------------------------------

/// Whether a plaintext parses as a complete inner transaction.
pub open spec fn spec_parses_as_inner(pt: Seq<u8>) -> bool {
    match sd_inner(pt, 0) {
        Some((_t, e)) => e == pt.len(),
        None => false,
    }
}

/// Whether a wrapper genuinely decrypts: its ciphertext yields a
/// plaintext that matches the wrapper's commitment hash and parses as
/// an inner transaction. A wrapper for which this fails is truly
/// un-decryptable.
pub open spec fn spec_decrypts_validly(w: WrapperTxV) -> bool {
    match spec_decrypt(w.ciphertext) {
        Some(pt) => spec_hash_tx(pt) == w.tx_hash && spec_parses_as_inner(pt),
        None => false,
    }
}

fn wrapper_decrypts_validly(w: &WrapperTx) -> (r: bool)
    ensures
        r == spec_decrypts_validly(w@),
{
    match decrypt(&w.ciphertext) {
        None => false,
        Some(pt) => {
            let h = hash_tx(&pt);
            if h != w.tx_hash {
                false
            } else {
                match rd_inner(&pt, 0) {
                    Some((_t, e)) => e == pt.len(),
                    None => false,
                }
            }
        },
    }
}

/// The commitment hash a decrypted transaction carries: the hash of the
/// plaintext for a decrypted one, the wrapper's own commitment for one
/// marked un-decryptable.
pub open spec fn spec_commitment(d: DecryptedTxV) -> u64 {
    match d {
        DecryptedTxV::Decrypted(t) => spec_hash_tx(se_inner(t)),
        DecryptedTxV::Undecryptable(w) => w.tx_hash,
    }
}

pub fn hash_commitment(d: &DecryptedTx) -> (r: u64)
    ensures
        r == spec_commitment(d@),
{
    match d {
        DecryptedTx::Decrypted(t) => hash_tx(&encode_inner(t)),
        DecryptedTx::Undecryptable(w) => w.tx_hash,
    }
}

/// Outcome of one decrypted transaction against the queue position the
/// cursor has reached.
pub open spec fn spec_decrypted_code(q: Seq<WrapperTx>, cursor: int, d: DecryptedTxV) -> ErrorCodes {
    if cursor >= q.len() {
        ErrorCodes::ExtraTxs
    } else if spec_commitment(d) != q[cursor].tx_hash {
        ErrorCodes::InvalidOrder
    } else {
        match d {
            DecryptedTxV::Undecryptable(w) => {
                if spec_decrypts_validly(w) {
                    ErrorCodes::InvalidTx
                } else {
                    ErrorCodes::Okay
                }
            },
            DecryptedTxV::Decrypted(_) => ErrorCodes::Okay,
        }
    }
}

pub open spec fn spec_decrypted_info(q: Seq<WrapperTx>, cursor: int, d: DecryptedTxV) -> Seq<char> {
    if cursor >= q.len() {
        "Received more decrypted txs than expected"@
    } else if spec_commitment(d) != q[cursor].tx_hash {
        "Process proposal rejected a decrypted transaction that violated the tx order determined in the previous block"@
    } else {
        match d {
            DecryptedTxV::Undecryptable(w) => {
                if spec_decrypts_validly(w) {
                    "The encrypted payload of tx was incorrectly marked as un-decryptable"@
                } else {
                    "Process Proposal accepted this transaction"@
                }
            },
            DecryptedTxV::Decrypted(_) => "Process Proposal accepted this transaction"@,
        }
    }
}

/// Validate one decrypted transaction against the next unconsumed queue
/// entry and advance the cursor. The cursor moves exactly once per
/// decrypted transaction while entries remain, also when the entry is
/// rejected; surplus transactions find the cursor exhausted.
pub fn check_decrypted(s: &Storage, d: &DecryptedTx, cursor: &mut usize) -> (r: TxResult)
    requires
        *old(cursor) <= s.tx_queue@.len(),
    ensures
        r.code == spec_decrypted_code(s.tx_queue@, *old(cursor) as int, d@),
        r.info@ == spec_decrypted_info(s.tx_queue@, *old(cursor) as int, d@),
        *final(cursor) as int == (if *old(cursor) < s.tx_queue@.len() {
            *old(cursor) + 1
        } else {
            *old(cursor) as int
        }),
{
    if *cursor >= s.tx_queue.len() {
        TxResult::new(ErrorCodes::ExtraTxs, "Received more decrypted txs than expected")
    } else {
        let idx = *cursor;
        *cursor = idx + 1;
        let expected = s.tx_queue[idx].tx_hash;
        let commit = hash_commitment(d);
        if commit != expected {
            TxResult::new(
                ErrorCodes::InvalidOrder,
                "Process proposal rejected a decrypted transaction that violated the tx order determined in the previous block",
            )
        } else {
            match d {
                DecryptedTx::Undecryptable(w) => {
                    if wrapper_decrypts_validly(w) {
                        TxResult::new(
                            ErrorCodes::InvalidTx,
                            "The encrypted payload of tx was incorrectly marked as un-decryptable",
                        )
                    } else {
                        TxResult::new(ErrorCodes::Okay, "Process Proposal accepted this transaction")
                    }
                },
                DecryptedTx::Decrypted(_) => {
                    TxResult::new(ErrorCodes::Okay, "Process Proposal accepted this transaction")
                },
            }
        }
    }
}

// ---------------------------------------------------------------------
// The wrapper fee validator
// ---------------------------------------------------------------------

/// Outcome of one wrapper: well-formed ciphertext, then fee-payer
/// solvency in the pre-execution snapshot. An absent account holds
/// zero, so any positive fee from it is insufficient.
pub open spec fn spec_wrapper_code(bs: Seq<BalanceEntry>, w: WrapperTxV) -> ErrorCodes {
    if !spec_ciphertext_wf(w.ciphertext) {
        ErrorCodes::InvalidTx
    } else if w.fee.amount <= spec_balance(bs, w.fee.token, w.fee_payer_pk) {
        ErrorCodes::Okay
    } else {
        ErrorCodes::InvalidTx
    }
}

pub open spec fn spec_wrapper_info(bs: Seq<BalanceEntry>, w: WrapperTxV) -> Seq<char> {
    if !spec_ciphertext_wf(w.ciphertext) {
        "The ciphertext of the wrapped tx is invalid"@
    } else if w.fee.amount <= spec_balance(bs, w.fee.token, w.fee_payer_pk) {
        "Process proposal accepted this transaction"@
    } else {
        "The address given does not have sufficient balance to pay fee"@
    }
}

/// Check a wrapper's ciphertext and its fee payer's balance. Returns
/// `Okay` exactly when the ciphertext is well-formed and
/// `fee.amount <= balance(fee.token, fee_payer)`.
pub fn check_wrapper(s: &Storage, w: &WrapperTx) -> (r: TxResult)
    ensures
        r.code == spec_wrapper_code(s.balances@, w@),
        r.info@ == spec_wrapper_info(s.balances@, w@),
{
    if !validate_ciphertext(&w.ciphertext) {
        TxResult::new(ErrorCodes::InvalidTx, "The ciphertext of the wrapped tx is invalid")
    } else {
        let balance = s.get_balance(w.fee.token, w.fee_payer_pk);
        if w.fee.amount <= balance {
            TxResult::new(ErrorCodes::Okay, "Process proposal accepted this transaction")
        } else {
            TxResult::new(
                ErrorCodes::InvalidTx,
                "The address given does not have sufficient balance to pay fee",
            )
        }
    }
}

// ---------------------------------------------------------------------
// Per-transaction dispatch
// ---------------------------------------------------------------------

/// Whether the decoded envelope's outer signature is present and covers
/// the body bytes under the key the transaction itself names.
pub open spec fn spec_outer_sig_ok(t: TxV) -> bool {
    match t.kind {
        TxKindV::Protocol(p) => match t.sig {
            Some(sg) => sg == spec_keyed_tag(p.pk, se_protocol_body(p)),
            None => false,
        },
        TxKindV::Wrapper(w) => match t.sig {
            Some(sg) => sg == spec_keyed_tag(w.fee_payer_pk, se_wrapper(w)),
            None => false,
        },
        _ => true,
    }
}

/// The code of one transaction, given the cursor position the proposal
/// has reached. This is the complete per-transaction decision rule.
#[verifier::opaque]
pub open spec fn spec_tx_code(s: Storage, b: Seq<u8>, cursor: int) -> ErrorCodes {
    match sd_tx(b) {
        None => ErrorCodes::InvalidTx,
        Some(t) => match t.kind {
            TxKindV::Raw(_) => ErrorCodes::InvalidTx,
            TxKindV::Protocol(p) => match t.sig {
                None => ErrorCodes::InvalidSig,
                Some(sg) => {
                    if sg != spec_keyed_tag(p.pk, se_protocol_body(p)) {
                        ErrorCodes::InvalidSig
                    } else {
                        match p.kind {
                            ProtocolTxKindV::EthereumEvents(d) => spec_digest_code(
                                s.validators@,
                                s.total_voting_power,
                                s.last_height,
                                d,
                            ),
                            ProtocolTxKindV::Other(_, _) => ErrorCodes::InvalidTx,
                        }
                    }
                },
            },
            TxKindV::Decrypted(d) => spec_decrypted_code(s.tx_queue@, cursor, d),
            TxKindV::Wrapper(w) => match t.sig {
                None => ErrorCodes::InvalidSig,
                Some(sg) => {
                    if sg != spec_keyed_tag(w.fee_payer_pk, se_wrapper(w)) {
                        ErrorCodes::InvalidSig
                    } else {
                        spec_wrapper_code(s.balances@, w)
                    }
                },
            },
        },
    }
}

pub open spec fn spec_digest_info(s: Storage, d: crate::tx::VextDigestV) -> Seq<char> {
    if !spec_all_vexts_valid(s.validators@, s.last_height, d) {
        "Process proposal rejected this proposal because at least one of the vote extensions included was invalid."@
    } else if 3 * spec_signer_power_sum(s.validators@, d.signatures) > 2 * s.total_voting_power {
        "Process proposal accepted this transaction"@
    } else {
        "Process proposal rejected this proposal because the backing stake of the vote extensions published in the proposal was insufficient"@
    }
}

/// The message of one transaction, branch for branch with its code.
#[verifier::opaque]
pub open spec fn spec_tx_info(s: Storage, b: Seq<u8>, cursor: int) -> Seq<char> {
    match sd_tx(b) {
        None => "The submitted transaction was not deserializable"@,
        Some(t) => match t.kind {
            TxKindV::Raw(_) => "Transaction rejected: Non-encrypted transactions are not supported"@,
            TxKindV::Protocol(p) => match t.sig {
                None => "Protocol transactions must be signed"@,
                Some(sg) => {
                    if sg != spec_keyed_tag(p.pk, se_protocol_body(p)) {
                        "Signature verification failed: Invalid signature"@
                    } else {
                        match p.kind {
                            ProtocolTxKindV::EthereumEvents(d) => spec_digest_info(s, d),
                            ProtocolTxKindV::Other(_, _) => "Unsupported protocol transaction type"@,
                        }
                    }
                },
            },
            TxKindV::Decrypted(d) => spec_decrypted_info(s.tx_queue@, cursor, d),
            TxKindV::Wrapper(w) => match t.sig {
                None => "Wrapper transactions must be signed"@,
                Some(sg) => {
                    if sg != spec_keyed_tag(w.fee_payer_pk, se_wrapper(w)) {
                        "Signature verification failed: Invalid signature"@
                    } else {
                        spec_wrapper_info(s.balances@, w)
                    }
                },
            },
        },
    }
}

/// Whether these bytes decode to a decrypted transaction: the proposal
/// positions that consume one queue entry each.
#[verifier::opaque]
pub open spec fn spec_is_decrypted(b: Seq<u8>) -> bool {
    match sd_tx(b) {
        Some(t) => t.kind is Decrypted,
        None => false,
    }
}

/// Whether these bytes count as one vote-extension digest: a protocol
/// transaction with a valid outer signature carrying a digest.
#[verifier::opaque]
pub open spec fn spec_is_digest(b: Seq<u8>) -> bool {
    match sd_tx(b) {
        Some(t) => match t.kind {
            TxKindV::Protocol(p) => match t.sig {
                Some(sg) => sg == spec_keyed_tag(p.pk, se_protocol_body(p))
                    && p.kind is EthereumEvents,
                None => false,
            },
            _ => false,
        },
        None => false,
    }
}

// ---------------------------------------------------------------------
// The fold over a whole proposal
// ---------------------------------------------------------------------

/// Cursor position after the first `i` transactions: one advance per
/// decrypted transaction while queue entries remain.
pub open spec fn spec_cursor_after(qlen: int, txs: Seq<Seq<u8>>, i: int) -> int
    decreases i,
{
    if i <= 0 {
        0
    } else {
        let c = spec_cursor_after(qlen, txs, i - 1);
        if spec_is_decrypted(txs[i - 1]) && c < qlen {
            c + 1
        } else {
            c
        }
    }
}

/// Number of vote-extension digests among the first `i` transactions.
pub open spec fn spec_digest_count(txs: Seq<Seq<u8>>, i: int) -> int
    decreases i,
{
    if i <= 0 {
        0
    } else {
        spec_digest_count(txs, i - 1) + (if spec_is_digest(txs[i - 1]) { 1int } else { 0int })
    }
}

/// The code of transaction `i` of a proposal, at the cursor position
/// the earlier transactions produced.
pub open spec fn spec_code_at(s: Storage, txs: Seq<Seq<u8>>, i: int) -> ErrorCodes {
    spec_tx_code(s, txs[i], spec_cursor_after(s.tx_queue@.len() as int, txs, i))
}

pub open spec fn spec_info_at(s: Storage, txs: Seq<Seq<u8>>, i: int) -> Seq<char> {
    spec_tx_info(s, txs[i], spec_cursor_after(s.tx_queue@.len() as int, txs, i))
}

pub open spec fn spec_all_recoverable(s: Storage, txs: Seq<Seq<u8>>) -> bool {
    forall|i: int| 0 <= i < txs.len() ==> spec_recoverable(#[trigger] spec_code_at(s, txs, i))
}

/// The verdict rule: accept exactly when the proposal carries exactly
/// one vote-extension digest and no transaction's code is unrecoverable.
pub open spec fn spec_accepts(s: Storage, txs: Seq<Seq<u8>>) -> bool {
    spec_digest_count(txs, txs.len() as int) == 1 && spec_all_recoverable(s, txs)
}

/// Accept or reject, for the whole proposal.
#[derive(Clone, Copy, PartialEq, Eq, Structural, Debug)]
pub enum ProposalStatus {
    Accept,
    Reject,
}

/// One proposal as handed in by the consensus engine.
pub struct ProcessProposalRequest {
    pub proposer_address: Vec<u8>,
    pub hash: Vec<u8>,
    pub height: u64,
    pub txs: Vec<Vec<u8>>,
}

/// The verdict plus one result per transaction, in input order. The
/// full list is returned also for rejected proposals.
pub struct ProcessProposalResponse {
    pub status: ProposalStatus,
    pub tx_results: Vec<TxResult>,
}

pub struct VerifyHeaderRequest {}

pub struct VerifyHeaderResponse {
    pub accepted: bool,
}

pub struct RevertProposalRequest {}

pub struct RevertProposalResponse {}

/// The proposal-verification side of the ledger shell: the storage
/// snapshot it reads, never writes.
pub struct Shell {
    pub storage: Storage,
}

impl Shell {
    /// Header verification is a stateless no-op that always accepts.
    pub fn verify_header(&self, _req: VerifyHeaderRequest) -> (r: VerifyHeaderResponse)
        ensures
            r.accepted,
    {
        VerifyHeaderResponse { accepted: true }
    }

    /// Nothing to revert: proposal verification leaves no state behind.
    pub fn revert_proposal(&mut self, _req: RevertProposalRequest) -> (r: RevertProposalResponse)
        ensures
            *final(self) == *old(self),
    {
        RevertProposalResponse {}
    }

    /// Append one wrapper to the committed decryption queue (the
    /// previous block's execution does this; exposed for harnesses).
    pub fn enqueue_tx(&mut self, w: WrapperTx)
        ensures
            final(self).storage.tx_queue@ == old(self).storage.tx_queue@.push(w),
            final(self).storage.last_height == old(self).storage.last_height,
            final(self).storage.current_epoch == old(self).storage.current_epoch,
            final(self).storage.total_voting_power == old(self).storage.total_voting_power,
            final(self).storage.validators == old(self).storage.validators,
            final(self).storage.balances == old(self).storage.balances,
    {
        self.storage.tx_queue.push(w);
    }

    /// Classify and validate one transaction, advancing the decrypted
    /// cursor and the digest counter as the dispatch demands.
    pub fn process_single_tx(
        &self,
        tx_bytes: &Vec<u8>,
        cursor: &mut usize,
        eth_ev_digest_num: &mut usize,
    ) -> (r: TxResult)
        requires
            self.storage.wf(),
            *old(cursor) <= self.storage.tx_queue@.len(),
            *old(eth_ev_digest_num) < usize::MAX,
        ensures
            r.code == spec_tx_code(self.storage, tx_bytes@, *old(cursor) as int),
            r.info@ == spec_tx_info(self.storage, tx_bytes@, *old(cursor) as int),
            *final(cursor) as int == (if spec_is_decrypted(tx_bytes@)
                && *old(cursor) < self.storage.tx_queue@.len() {
                *old(cursor) + 1
            } else {
                *old(cursor) as int
            }),
            *final(eth_ev_digest_num) == *old(eth_ev_digest_num)
                + (if spec_is_digest(tx_bytes@) { 1int } else { 0int }),
    {
        proof {
            reveal(spec_tx_code);
            reveal(spec_tx_info);
            reveal(spec_is_decrypted);
            reveal(spec_is_digest);
        }
        let maybe_tx = decode_tx(tx_bytes);
        match maybe_tx {
            None => TxResult::new(
                ErrorCodes::InvalidTx,
                "The submitted transaction was not deserializable",
            ),
            Some(tx) => {
                match &tx.kind {
                    TxKind::Raw(_) => TxResult::new(
                        ErrorCodes::InvalidTx,
                        "Transaction rejected: Non-encrypted transactions are not supported",
                    ),
                    TxKind::Protocol(p) => {
                        match &tx.sig {
                            None => TxResult::new(
                                ErrorCodes::InvalidSig,
                                "Protocol transactions must be signed",
                            ),
                            Some(sg) => {
                                let msg = encode_body(&tx.kind);
                                let tag = keyed_tag(p.pk, &msg);
                                if *sg != tag {
                                    TxResult::new(
                                        ErrorCodes::InvalidSig,
                                        "Signature verification failed: Invalid signature",
                                    )
                                } else {
                                    match &p.kind {
                                        ProtocolTxKind::EthereumEvents(d) => {
                                            *eth_ev_digest_num = *eth_ev_digest_num + 1;
                                            validate_vext_digest(&self.storage, d)
                                        },
                                        ProtocolTxKind::Other(_, _) => TxResult::new(
                                            ErrorCodes::InvalidTx,
                                            "Unsupported protocol transaction type",
                                        ),
                                    }
                                }
                            },
                        }
                    },
                    TxKind::Decrypted(d) => check_decrypted(&self.storage, d, cursor),
                    TxKind::Wrapper(w) => {
                        match &tx.sig {
                            None => TxResult::new(
                                ErrorCodes::InvalidSig,
                                "Wrapper transactions must be signed",
                            ),
                            Some(sg) => {
                                let msg = encode_body(&tx.kind);
                                let tag = keyed_tag(w.fee_payer_pk, &msg);
                                if *sg != tag {
                                    TxResult::new(
                                        ErrorCodes::InvalidSig,
                                        "Signature verification failed: Invalid signature",
                                    )
                                } else {
                                    check_wrapper(&self.storage, w)
                                }
                            },
                        }
                    },
                }
            },
        }
    }

    /// Check all transactions of one proposal, in order, and fold the
    /// outcomes into the verdict. Pure: one synchronous pass, reading
    /// the snapshot only; calling it again with the same inputs yields
    /// the same response.
    #[verifier::rlimit(100)]
    pub fn process_proposal(&self, req: ProcessProposalRequest) -> (r: ProcessProposalResponse)
        requires
            self.storage.wf(),
        ensures
            r.tx_results@.len() == req.txs@.len(),
            forall|i: int| 0 <= i < req.txs@.len()
                ==> (#[trigger] r.tx_results@[i]).code
                    == spec_code_at(self.storage, req.txs@.map_values(|v: Vec<u8>| v@), i),
            forall|i: int| 0 <= i < req.txs@.len()
                ==> (#[trigger] r.tx_results@[i]).info@
                    == spec_info_at(self.storage, req.txs@.map_values(|v: Vec<u8>| v@), i),
            r.status == (if spec_accepts(self.storage, req.txs@.map_values(|v: Vec<u8>| v@)) {
                ProposalStatus::Accept
            } else {
                ProposalStatus::Reject
            }),
    {
        let ghost txv = req.txs@.map_values(|v: Vec<u8>| v@);
        let ghost qlen = self.storage.tx_queue@.len() as int;
        let mut cursor: usize = 0;
        let mut eth_ev_digest_num: usize = 0;
        let mut tx_results: Vec<TxResult> = Vec::new();
        let mut all_rec = true;
        let mut i: usize = 0;
        while i < req.txs.len()
            invariant
                self.storage.wf(),
                i <= req.txs@.len(),
                txv == req.txs@.map_values(|v: Vec<u8>| v@),
                qlen == self.storage.tx_queue@.len() as int,
                tx_results@.len() == i,
                cursor <= self.storage.tx_queue@.len(),
                cursor == spec_cursor_after(qlen, txv, i as int),
                eth_ev_digest_num == spec_digest_count(txv, i as int),
                eth_ev_digest_num <= i,
                forall|j: int| 0 <= j < i
                    ==> (#[trigger] tx_results@[j]).code == spec_code_at(self.storage, txv, j),
                forall|j: int| 0 <= j < i
                    ==> (#[trigger] tx_results@[j]).info@ == spec_info_at(self.storage, txv, j),
                all_rec == (forall|j: int| 0 <= j < i
                    ==> spec_recoverable(#[trigger] spec_code_at(self.storage, txv, j))),
            decreases req.txs@.len() - i,
        {
            proof {
                assert(txv[i as int] == req.txs@[i as int]@);
            }
            let ghost all_rec_before = all_rec;
            let res = self.process_single_tx(&req.txs[i], &mut cursor, &mut eth_ev_digest_num);
            proof {
                assert(res.code == spec_code_at(self.storage, txv, i as int));
                assert(res.info@ == spec_info_at(self.storage, txv, i as int));
            }
            let rec = res.code.is_recoverable();
            all_rec = all_rec && rec;
            proof {
                if all_rec_before && rec {
                    assert(forall|j: int| 0 <= j < i + 1
                        ==> spec_recoverable(#[trigger] spec_code_at(self.storage, txv, j)));
                }
            }
            tx_results.push(res);
            i = i + 1;
        }
        let accept = eth_ev_digest_num == 1 && all_rec;
        proof {
            assert(txv.len() == req.txs@.len());
        }
        let status = if accept {
            ProposalStatus::Accept
        } else {
            ProposalStatus::Reject
        };
        ProcessProposalResponse { status, tx_results }
    }

    /// Check the given transactions alone, without the digest-count
    /// verdict; each sees its own scratch digest counter.
    #[verifier::rlimit(100)]
    pub fn process_txs(&self, txs: &Vec<Vec<u8>>) -> (r: Vec<TxResult>)
        requires
            self.storage.wf(),
        ensures
            r@.len() == txs@.len(),
            forall|i: int| 0 <= i < txs@.len()
                ==> (#[trigger] r@[i]).code
                    == spec_code_at(self.storage, txs@.map_values(|v: Vec<u8>| v@), i),
            forall|i: int| 0 <= i < txs@.len()
                ==> (#[trigger] r@[i]).info@
                    == spec_info_at(self.storage, txs@.map_values(|v: Vec<u8>| v@), i),
    {
        let ghost txv = txs@.map_values(|v: Vec<u8>| v@);
        let ghost qlen = self.storage.tx_queue@.len() as int;
        let mut cursor: usize = 0;
        let mut results: Vec<TxResult> = Vec::new();
        let mut i: usize = 0;
        while i < txs.len()
            invariant
                self.storage.wf(),
                i <= txs@.len(),
                txv == txs@.map_values(|v: Vec<u8>| v@),
                qlen == self.storage.tx_queue@.len() as int,
                results@.len() == i,
                cursor <= self.storage.tx_queue@.len(),
                cursor == spec_cursor_after(qlen, txv, i as int),
                forall|j: int| 0 <= j < i
                    ==> (#[trigger] results@[j]).code == spec_code_at(self.storage, txv, j),
                forall|j: int| 0 <= j < i
                    ==> (#[trigger] results@[j]).info@ == spec_info_at(self.storage, txv, j),
            decreases txs@.len() - i,
        {
            proof {
                assert(txv[i as int] == txs@[i as int]@);
            }
            let mut scratch: usize = 0;
            let res = self.process_single_tx(&txs[i], &mut cursor, &mut scratch);
            results.push(res);
            i = i + 1;
        }
        results
    }
}

} // verus!
