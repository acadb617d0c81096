//! Block-level guarantees of the verification pipeline, proved from the
//! contracts of the per-transaction rules.

use vstd::prelude::*;
use crate::codec::spec_ciphertext_wf;
use crate::codes::{spec_recoverable, ErrorCodes};
use crate::decode::sd_tx;
use crate::shell::{
    spec_accepts, spec_code_at, spec_commitment, spec_cursor_after,
    spec_digest_count, spec_is_decrypted, spec_is_digest, spec_outer_sig_ok,
    spec_tx_code,
};
use crate::storage::{spec_balance, Storage};
use crate::tx::{ProtocolTxKindV, TxKindV};
use crate::vote_ext::{spec_all_vexts_valid, spec_signer_power_sum};

verus! {

/// A proposal whose single vote-extension digest verifies in full with
/// aggregate fractional voting power strictly above two-thirds, and
/// whose other transactions all carry recoverable codes, is accepted.
pub proof fn lemma_accept_quorum(s: Storage, txs: Seq<Seq<u8>>, k: int)
    requires
        0 <= k < txs.len(),
        spec_is_digest(txs[k]),
        spec_digest_count(txs, txs.len() as int) == 1,
        (match sd_tx(txs[k]) {
            Some(t) => match t.kind {
                TxKindV::Protocol(p) => match p.kind {
                    ProtocolTxKindV::EthereumEvents(d) => {
                        &&& spec_all_vexts_valid(s.validators@, s.last_height, d)
                        &&& 3 * spec_signer_power_sum(s.validators@, d.signatures)
                            > 2 * s.total_voting_power
                    },
                    ProtocolTxKindV::Other(_, _) => false,
                },
                _ => false,
            },
            None => false,
        }),
        forall|i: int| 0 <= i < txs.len() && i != k
            ==> spec_recoverable(#[trigger] spec_code_at(s, txs, i)),
    ensures
        spec_accepts(s, txs),
{
    reveal(spec_is_digest);
    reveal(spec_tx_code);
    assert(spec_code_at(s, txs, k) == ErrorCodes::Okay);
    assert(forall|i: int| 0 <= i < txs.len()
        ==> spec_recoverable(#[trigger] spec_code_at(s, txs, i)));
}

/// A proposal carrying zero, or two or more, vote-extension digests is
/// rejected, whatever its transactions' individual outcomes.
pub proof fn lemma_reject_on_digest_count(s: Storage, txs: Seq<Seq<u8>>)
    requires
        spec_digest_count(txs, txs.len() as int) != 1,
    ensures
        !spec_accepts(s, txs),
{
}

/// The committed order must be followed: when the cursor stands at the
/// second queue entry, a decrypted transaction matching the third entry
/// (the second having been skipped) is rejected as out of order.
pub proof fn lemma_order_violation(s: Storage, txs: Seq<Seq<u8>>, j: int)
    requires
        0 <= j < txs.len(),
        s.tx_queue@.len() >= 3,
        spec_cursor_after(s.tx_queue@.len() as int, txs, j) == 1,
        (match sd_tx(txs[j]) {
            Some(t) => match t.kind {
                TxKindV::Decrypted(d) =>
                    spec_commitment(d) == s.tx_queue@[2].tx_hash,
                _ => false,
            },
            None => false,
        }),
        s.tx_queue@[2].tx_hash != s.tx_queue@[1].tx_hash,
    ensures
        spec_code_at(s, txs, j) == ErrorCodes::InvalidOrder,
{
    reveal(spec_tx_code);
}

/// A signed wrapper with well-formed ciphertext is accepted exactly
/// when its fee is covered by the payer's balance in the pre-execution
/// snapshot; a larger fee makes it invalid.
pub proof fn lemma_wrapper_fee(s: Storage, b: Seq<u8>, cursor: int)
    requires
        (match sd_tx(b) {
            Some(t) => match t.kind {
                TxKindV::Wrapper(w) => spec_outer_sig_ok(t)
                    && spec_ciphertext_wf(w.ciphertext),
                _ => false,
            },
            None => false,
        }),
    ensures
        (match sd_tx(b) {
            Some(t) => match t.kind {
                TxKindV::Wrapper(w) => spec_tx_code(s, b, cursor)
                    == (if w.fee.amount
                        <= spec_balance(s.balances@, w.fee.token, w.fee_payer_pk) {
                        ErrorCodes::Okay
                    } else {
                        ErrorCodes::InvalidTx
                    }),
                _ => true,
            },
            None => true,
        }),
{
    reveal(spec_tx_code);
}

/// The outer signature covers the whole wrapper body, the fee field
/// included: a wrapper whose signature does not cover its present
/// content — as after tampering with the fee while keeping the original
/// signature — is rejected with InvalidSig, never accepted with the
/// modified fee.
pub proof fn lemma_wrapper_sig_mismatch(s: Storage, b: Seq<u8>, cursor: int)
    requires
        (match sd_tx(b) {
            Some(t) => t.kind is Wrapper && !spec_outer_sig_ok(t),
            None => false,
        }),
    ensures
        spec_tx_code(s, b, cursor) == ErrorCodes::InvalidSig,
{
    reveal(spec_tx_code);
}

/// Decrypted transactions beyond the committed queue are surplus: once
/// the cursor has consumed the whole queue, every further decrypted
/// transaction is rejected with ExtraTxs.
pub proof fn lemma_extra_txs(s: Storage, txs: Seq<Seq<u8>>, i: int)
    requires
        0 <= i < txs.len(),
        spec_is_decrypted(txs[i]),
        spec_cursor_after(s.tx_queue@.len() as int, txs, i) >= s.tx_queue@.len(),
    ensures
        spec_code_at(s, txs, i) == ErrorCodes::ExtraTxs,
{
    reveal(spec_is_decrypted);
    reveal(spec_tx_code);
}

/// A raw transaction is rejected with InvalidTx, for any payload, any
/// state and any cursor position; it can never reach execution.
pub proof fn lemma_raw_rejected(s: Storage, b: Seq<u8>, cursor: int)
    requires
        (match sd_tx(b) {
            Some(t) => t.kind is Raw,
            None => false,
        }),
    ensures
        spec_tx_code(s, b, cursor) == ErrorCodes::InvalidTx,
{
    reveal(spec_tx_code);
}

} // verus!
