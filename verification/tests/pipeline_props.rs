//! Scenario tests for the block-level properties: quorum thresholds,
//! digest counting, order enforcement, surplus rejection, and the
//! stable error-code table.

use proposal_verify::codec::{encrypt, hash_tx, keyed_tag};
use proposal_verify::codes::ErrorCodes;
use proposal_verify::decode::decode_tx;
use proposal_verify::shell::{
    ProcessProposalRequest, ProposalStatus, RevertProposalRequest, Shell,
    VerifyHeaderRequest,
};
use proposal_verify::storage::{BalanceEntry, Storage, ValidatorInfo};
use proposal_verify::tx::{
    encode_body, encode_inner, encode_tx, DecryptedTx, Fee, InnerTx,
    ProtocolTx, ProtocolTxKind, SigEntry, Tx, TxKind, VextDigest, WrapperTx,
};
use proposal_verify::vote_ext::encode_vext_msg;

const XAN: u64 = 1;

fn shell_with_power(addr: u64, key: u64, power: u64, total: u64) -> Shell {
    Shell {
        storage: Storage {
            last_height: 1,
            current_epoch: 0,
            total_voting_power: total,
            validators: vec![ValidatorInfo { addr, protocol_key: key, power }],
            balances: vec![BalanceEntry { token: XAN, owner: 5, amount: 500 }],
            tx_queue: vec![],
        },
    }
}

fn sign_kind(kind: TxKind, key: u64) -> Tx {
    let body = encode_body(&kind);
    let sig = keyed_tag(key, &body);
    Tx { kind, sig: Some(sig) }
}

fn empty_digest_bytes(shell: &Shell, addr: u64, key: u64) -> Vec<u8> {
    let msg = encode_vext_msg(shell.storage.last_height, addr, &vec![]);
    let sig = keyed_tag(key, &msg);
    let ptx = ProtocolTx {
        pk: key,
        kind: ProtocolTxKind::EthereumEvents(VextDigest {
            signatures: vec![SigEntry { addr, sig }],
            events: vec![],
        }),
    };
    encode_tx(&sign_kind(TxKind::Protocol(ptx), key))
}

fn make_wrapper(fee: Fee, payer: u64, inner: &InnerTx) -> WrapperTx {
    let pt = encode_inner(inner);
    WrapperTx {
        fee,
        fee_payer_pk: payer,
        epoch: 0,
        gas_limit: 0,
        tx_hash: hash_tx(&pt),
        ciphertext: encrypt(&pt),
    }
}

fn decrypted_bytes(inner: InnerTx) -> Vec<u8> {
    encode_tx(&Tx { kind: TxKind::Decrypted(DecryptedTx::Decrypted(inner)), sig: None })
}

fn request(txs: Vec<Vec<u8>>) -> ProcessProposalRequest {
    ProcessProposalRequest { proposer_address: vec![7], hash: vec![8], height: 1, txs }
}

/// A digest signed solely by a validator holding 0.70 of total power,
/// with an empty event list at the correct height, verifies; as the
/// proposal's only digest it makes the verdict Accept.
#[test]
fn test_seventy_percent_sole_digest_accepts() {
    let shell = shell_with_power(10, 1000, 70, 100);
    let tx = empty_digest_bytes(&shell, 10, 1000);
    let response = shell.process_proposal(request(vec![tx]));
    assert_eq!(u32::from(response.tx_results[0].code), u32::from(ErrorCodes::Okay));
    assert_eq!(
        response.tx_results[0].info,
        String::from("Process proposal accepted this transaction")
    );
    assert_eq!(response.status, ProposalStatus::Accept);
}

/// Exactly two-thirds of the stake is not enough: the threshold is
/// strict.
#[test]
fn test_exact_two_thirds_rejected() {
    let shell = shell_with_power(10, 1000, 2, 3);
    let tx = empty_digest_bytes(&shell, 10, 1000);
    let response = shell.process_proposal(request(vec![tx]));
    assert_eq!(
        u32::from(response.tx_results[0].code),
        u32::from(ErrorCodes::InvalidVoteExtension)
    );
    assert_eq!(
        response.tx_results[0].info,
        String::from(
            "Process proposal rejected this proposal because the backing stake of the vote extensions published in the proposal was insufficient"
        )
    );
    assert_eq!(response.status, ProposalStatus::Reject);
}

/// One unit above two-thirds passes.
#[test]
fn test_just_above_two_thirds_accepts() {
    let shell = shell_with_power(10, 1000, 67, 100);
    let tx = empty_digest_bytes(&shell, 10, 1000);
    let response = shell.process_proposal(request(vec![tx]));
    assert_eq!(u32::from(response.tx_results[0].code), u32::from(ErrorCodes::Okay));
    assert_eq!(response.status, ProposalStatus::Accept);
}

/// The same digest duplicated twice makes the digest count 2: the
/// proposal is rejected even though each copy verifies on its own.
#[test]
fn test_duplicated_digest_count_two_rejects() {
    let shell = shell_with_power(10, 1000, 70, 100);
    let tx = empty_digest_bytes(&shell, 10, 1000);
    let response = shell.process_proposal(request(vec![tx.clone(), tx]));
    assert_eq!(u32::from(response.tx_results[0].code), u32::from(ErrorCodes::Okay));
    assert_eq!(u32::from(response.tx_results[1].code), u32::from(ErrorCodes::Okay));
    assert_eq!(response.status, ProposalStatus::Reject);
}

/// A proposal without any digest is rejected, whatever else it holds.
#[test]
fn test_zero_digests_rejects() {
    let shell = shell_with_power(10, 1000, 70, 100);
    let inner = InnerTx { code: vec![1], data: vec![2] };
    let wrapper = make_wrapper(Fee { amount: 0, token: XAN }, 5, &inner);
    let tx = encode_tx(&sign_kind(TxKind::Wrapper(wrapper), 5));
    let response = shell.process_proposal(request(vec![tx]));
    assert_eq!(u32::from(response.tx_results[0].code), u32::from(ErrorCodes::Okay));
    assert_eq!(response.status, ProposalStatus::Reject);
}

/// Committed queue [A, B, C]: a decrypted transaction matching A then
/// one matching C (skipping B) yields InvalidOrder for the second.
#[test]
fn test_skipped_queue_entry_invalid_order() {
    let mut shell = shell_with_power(10, 1000, 70, 100);
    let inners: Vec<InnerTx> = (0..3u8)
        .map(|i| InnerTx { code: vec![i], data: vec![i, i] })
        .collect();
    for inner in &inners {
        let wrapper = make_wrapper(Fee { amount: 0, token: XAN }, 5, inner);
        shell.enqueue_tx(wrapper);
    }
    let digest = empty_digest_bytes(&shell, 10, 1000);
    let response = shell.process_proposal(request(vec![
        decrypted_bytes(inners[0].clone()),
        decrypted_bytes(inners[2].clone()),
        digest,
    ]));
    assert_eq!(u32::from(response.tx_results[0].code), u32::from(ErrorCodes::Okay));
    assert_eq!(u32::from(response.tx_results[1].code), u32::from(ErrorCodes::InvalidOrder));
    assert_eq!(response.status, ProposalStatus::Reject);
}

/// More decrypted transactions than queued: the surplus entries get
/// ExtraTxs.
#[test]
fn test_surplus_decrypted_get_extra_txs() {
    let mut shell = shell_with_power(10, 1000, 70, 100);
    let first = InnerTx { code: vec![1], data: vec![1] };
    let second = InnerTx { code: vec![2], data: vec![2] };
    shell.enqueue_tx(make_wrapper(Fee { amount: 0, token: XAN }, 5, &first));
    let response = shell.process_proposal(request(vec![
        decrypted_bytes(first),
        decrypted_bytes(second.clone()),
        decrypted_bytes(second),
    ]));
    assert_eq!(u32::from(response.tx_results[0].code), u32::from(ErrorCodes::Okay));
    assert_eq!(u32::from(response.tx_results[1].code), u32::from(ErrorCodes::ExtraTxs));
    assert_eq!(u32::from(response.tx_results[2].code), u32::from(ErrorCodes::ExtraTxs));
    assert_eq!(response.status, ProposalStatus::Reject);
}

/// A wrapper whose fee the payer can cover, with valid ciphertext, is
/// accepted.
#[test]
fn test_wrapper_sufficient_balance_ok() {
    let shell = shell_with_power(10, 1000, 70, 100);
    let inner = InnerTx { code: vec![3], data: vec![4] };
    let wrapper = make_wrapper(Fee { amount: 500, token: XAN }, 5, &inner);
    let tx = encode_tx(&sign_kind(TxKind::Wrapper(wrapper), 5));
    let digest = empty_digest_bytes(&shell, 10, 1000);
    let response = shell.process_proposal(request(vec![tx, digest]));
    assert_eq!(u32::from(response.tx_results[0].code), u32::from(ErrorCodes::Okay));
    assert_eq!(response.status, ProposalStatus::Accept);
}

/// A wrapper whose ciphertext lacks a recognized scheme byte is invalid.
#[test]
fn test_wrapper_invalid_ciphertext() {
    let shell = shell_with_power(10, 1000, 70, 100);
    let inner = InnerTx { code: vec![3], data: vec![4] };
    let mut wrapper = make_wrapper(Fee { amount: 0, token: XAN }, 5, &inner);
    wrapper.ciphertext = vec![9, 9, 9];
    let tx = encode_tx(&sign_kind(TxKind::Wrapper(wrapper), 5));
    let response = shell.process_proposal(request(vec![tx]));
    assert_eq!(u32::from(response.tx_results[0].code), u32::from(ErrorCodes::InvalidTx));
    assert_eq!(
        response.tx_results[0].info,
        String::from("The ciphertext of the wrapped tx is invalid")
    );
}

/// Bytes that decode to no transaction are InvalidTx, not a crash.
#[test]
fn test_undeserializable_bytes_invalid_tx() {
    let shell = shell_with_power(10, 1000, 70, 100);
    let response = shell.process_proposal(request(vec![vec![0xff, 0x01, 0x02]]));
    assert_eq!(u32::from(response.tx_results[0].code), u32::from(ErrorCodes::InvalidTx));
    assert_eq!(
        response.tx_results[0].info,
        String::from("The submitted transaction was not deserializable")
    );
}

/// An unsupported protocol transaction kind is InvalidTx.
#[test]
fn test_unsupported_protocol_kind() {
    let shell = shell_with_power(10, 1000, 70, 100);
    let ptx = ProtocolTx { pk: 1000, kind: ProtocolTxKind::Other(7, vec![1, 2, 3]) };
    let tx = encode_tx(&sign_kind(TxKind::Protocol(ptx), 1000));
    let response = shell.process_proposal(request(vec![tx]));
    assert_eq!(u32::from(response.tx_results[0].code), u32::from(ErrorCodes::InvalidTx));
    assert_eq!(
        response.tx_results[0].info,
        String::from("Unsupported protocol transaction type")
    );
}

/// A protocol transaction without an outer signature is InvalidSig.
#[test]
fn test_unsigned_protocol_rejected() {
    let shell = shell_with_power(10, 1000, 70, 100);
    let ptx = ProtocolTx {
        pk: 1000,
        kind: ProtocolTxKind::EthereumEvents(VextDigest { signatures: vec![], events: vec![] }),
    };
    let tx = encode_tx(&Tx { kind: TxKind::Protocol(ptx), sig: None });
    let response = shell.process_proposal(request(vec![tx]));
    assert_eq!(u32::from(response.tx_results[0].code), u32::from(ErrorCodes::InvalidSig));
    assert_eq!(
        response.tx_results[0].info,
        String::from("Protocol transactions must be signed")
    );
}

/// The stable code table and its recoverable/unrecoverable split.
#[test]
fn test_error_code_table() {
    let table = [
        (ErrorCodes::Okay, 0u32, true),
        (ErrorCodes::InvalidTx, 1, true),
        (ErrorCodes::InvalidSig, 2, true),
        (ErrorCodes::WasmRuntimeError, 3, true),
        (ErrorCodes::InvalidOrder, 4, false),
        (ErrorCodes::ExtraTxs, 5, false),
        (ErrorCodes::Undecryptable, 6, true),
        (ErrorCodes::InvalidVoteExtension, 7, false),
    ];
    for (code, value, recoverable) in table {
        assert_eq!(u32::from(code), value);
        assert_eq!(ErrorCodes::from_u32(value), Some(code));
        assert_eq!(code.is_recoverable(), recoverable);
    }
    assert_eq!(ErrorCodes::from_u32(8), None);
}

/// Encoding then decoding a transaction gives it back.
#[test]
fn test_codec_round_trip() {
    let inner = InnerTx { code: vec![1, 2, 3], data: vec![4, 5] };
    let wrapper = make_wrapper(Fee { amount: 42, token: XAN }, 5, &inner);
    let tx = sign_kind(TxKind::Wrapper(wrapper.clone()), 5);
    let decoded = decode_tx(&encode_tx(&tx)).expect("round trip failed");
    assert_eq!(decoded.sig, tx.sig);
    match decoded.kind {
        TxKind::Wrapper(w) => {
            assert_eq!(w.fee, wrapper.fee);
            assert_eq!(w.fee_payer_pk, wrapper.fee_payer_pk);
            assert_eq!(w.epoch, wrapper.epoch);
            assert_eq!(w.gas_limit, wrapper.gas_limit);
            assert_eq!(w.tx_hash, wrapper.tx_hash);
            assert_eq!(w.ciphertext, wrapper.ciphertext);
        },
        _ => panic!("wrong kind"),
    }
}

/// A digest whose signer addresses do not strictly increase on the wire
/// (here: the same validator listed twice) does not decode, so no
/// validator's power can be counted twice.
#[test]
fn test_duplicate_signer_entry_rejected() {
    let shell = shell_with_power(10, 1000, 70, 100);
    let msg = encode_vext_msg(1, 10, &vec![]);
    let sig = keyed_tag(1000, &msg);
    let entry = SigEntry { addr: 10, sig };
    let ptx = ProtocolTx {
        pk: 1000,
        kind: ProtocolTxKind::EthereumEvents(VextDigest {
            signatures: vec![entry, entry],
            events: vec![],
        }),
    };
    let tx = encode_tx(&sign_kind(TxKind::Protocol(ptx), 1000));
    assert!(decode_tx(&tx).is_none());
    let response = shell.process_proposal(request(vec![tx]));
    assert_eq!(u32::from(response.tx_results[0].code), u32::from(ErrorCodes::InvalidTx));
}

/// verify_header always accepts; revert_proposal changes nothing.
#[test]
fn test_header_and_revert_are_noops() {
    let mut shell = shell_with_power(10, 1000, 70, 100);
    shell.enqueue_tx(make_wrapper(
        Fee { amount: 0, token: XAN },
        5,
        &InnerTx { code: vec![1], data: vec![] },
    ));
    assert!(shell.verify_header(VerifyHeaderRequest {}).accepted);
    let queue_len = shell.storage.tx_queue.len();
    let total = shell.storage.total_voting_power;
    shell.revert_proposal(RevertProposalRequest {});
    assert_eq!(shell.storage.tx_queue.len(), queue_len);
    assert_eq!(shell.storage.total_voting_power, total);
    assert_eq!(shell.storage.last_height, 1);
}

/// process_txs reports the same per-transaction codes as a full
/// proposal pass.
#[test]
fn test_process_txs_matches_proposal_codes() {
    let mut shell = shell_with_power(10, 1000, 70, 100);
    let first = InnerTx { code: vec![1], data: vec![1] };
    shell.enqueue_tx(make_wrapper(Fee { amount: 0, token: XAN }, 5, &first));
    let txs = vec![
        decrypted_bytes(first),
        empty_digest_bytes(&shell, 10, 1000),
        vec![0xff],
    ];
    let results = shell.process_txs(&txs);
    let response = shell.process_proposal(request(txs));
    assert_eq!(results.len(), response.tx_results.len());
    for (a, b) in results.iter().zip(response.tx_results.iter()) {
        assert_eq!(u32::from(a.code), u32::from(b.code));
    }
}
