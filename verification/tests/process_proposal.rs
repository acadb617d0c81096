//! Failure-path tests of process_proposal: rejected digests, unsigned
//! and tampered wrappers, fee insolvency, order violations, surplus and
//! mislabeled decrypted transactions, and raw transactions.

use proposal_verify::codec::{encrypt, hash_tx, keyed_tag};
use proposal_verify::codes::ErrorCodes;
use proposal_verify::shell::{ProcessProposalRequest, ProposalStatus, Shell};
use proposal_verify::storage::{BalanceEntry, Storage, ValidatorInfo};
use proposal_verify::tx::{
    encode_body, encode_inner, encode_tx, DecryptedTx, Fee, InnerTx,
    MultiSignedEvent, ProtocolTx, ProtocolTxKind, SigEntry, Tx, TxKind,
    VextDigest, WrapperTx,
};
use proposal_verify::vote_ext::encode_vext_msg;

// The fixed fixture: one active validator (address 10, protocol key
// 1000) holding 70 of 100 total power; the fee token is 1; the account
// 77 (key of the default funded keypair) holds 1_000_000 of it.
const VALIDATOR_ADDR: u64 = 10;
const VALIDATOR_KEY: u64 = 1000;
const XAN: u64 = 1;
const DAEWON_KEY: u64 = 77;

fn setup_at_height(height: u64) -> Shell {
    Shell {
        storage: Storage {
            last_height: height,
            current_epoch: 0,
            total_voting_power: 100,
            validators: vec![ValidatorInfo {
                addr: VALIDATOR_ADDR,
                protocol_key: VALIDATOR_KEY,
                power: 70,
            }],
            balances: vec![BalanceEntry { token: XAN, owner: DAEWON_KEY, amount: 1_000_000 }],
            tx_queue: vec![],
        },
    }
}

fn gen_keypair() -> u64 {
    7777
}

fn sign_kind(kind: TxKind, key: u64) -> Tx {
    let body = encode_body(&kind);
    let sig = keyed_tag(key, &body);
    Tx { kind, sig: Some(sig) }
}

fn new_inner(code: &str, data: &str) -> InnerTx {
    InnerTx { code: code.as_bytes().to_vec(), data: data.as_bytes().to_vec() }
}

fn new_wrapper(fee: Fee, payer: u64, epoch: u64, gas: u64, inner: &InnerTx) -> WrapperTx {
    let pt = encode_inner(inner);
    WrapperTx {
        fee,
        fee_payer_pk: payer,
        epoch,
        gas_limit: gas,
        tx_hash: hash_tx(&pt),
        ciphertext: encrypt(&pt),
    }
}

fn digest_tx_bytes(digest: VextDigest, key: u64) -> Vec<u8> {
    let ptx = ProtocolTx { pk: key, kind: ProtocolTxKind::EthereumEvents(digest) };
    encode_tx(&sign_kind(TxKind::Protocol(ptx), key))
}

fn get_empty_eth_ev_digest(shell: &Shell) -> Vec<u8> {
    let msg = encode_vext_msg(shell.storage.last_height, VALIDATOR_ADDR, &vec![]);
    let sig = keyed_tag(VALIDATOR_KEY, &msg);
    digest_tx_bytes(
        VextDigest {
            signatures: vec![SigEntry { addr: VALIDATOR_ADDR, sig }],
            events: vec![],
        },
        VALIDATOR_KEY,
    )
}

fn request(txs: Vec<Vec<u8>>) -> ProcessProposalRequest {
    ProcessProposalRequest { proposer_address: vec![], hash: vec![], height: 1, txs }
}

/// A digest that fails vote-extension validation rejects the proposal.
fn check_rejected_digest(shell: &Shell, digest: VextDigest, key: u64) {
    let tx = digest_tx_bytes(digest, key);
    let response = shell.process_proposal(request(vec![tx]));
    assert_eq!(response.status, ProposalStatus::Reject);
    assert_eq!(
        u32::from(response.tx_results[0].code),
        u32::from(ErrorCodes::InvalidVoteExtension)
    );
}

#[test]
fn test_more_than_one_vext_digest_rejected() {
    let mut shell = setup_at_height(1);
    shell.storage.last_height = 2;
    let msg = encode_vext_msg(2, VALIDATOR_ADDR, &vec![]);
    let sig = keyed_tag(VALIDATOR_KEY, &msg);
    let tx = digest_tx_bytes(
        VextDigest {
            signatures: vec![SigEntry { addr: VALIDATOR_ADDR, sig }],
            events: vec![],
        },
        VALIDATOR_KEY,
    );
    let results = shell.process_proposal(request(vec![tx.clone(), tx]));
    assert_eq!(results.status, ProposalStatus::Reject);
    assert_eq!(results.tx_results.len(), 2);
}

#[test]
fn test_drop_vext_digest_with_invalid_sigs() {
    let mut shell = setup_at_height(1);
    shell.storage.last_height = 2;
    let event = b"TransfersToNamada nonce 1".to_vec();
    let msg = encode_vext_msg(2, VALIDATOR_ADDR, &vec![event.clone()]);
    // generate a valid signature, then modify it so it becomes invalid
    let sig = keyed_tag(VALIDATOR_KEY, &msg).wrapping_add(1);
    let digest = VextDigest {
        signatures: vec![SigEntry { addr: VALIDATOR_ADDR, sig }],
        events: vec![MultiSignedEvent { payload: event, signers: vec![VALIDATOR_ADDR] }],
    };
    check_rejected_digest(&shell, digest, VALIDATOR_KEY);
}

#[test]
fn test_drop_vext_digest_with_invalid_bheights() {
    let mut shell = setup_at_height(1);
    shell.storage.last_height = 3;
    let event = b"TransfersToNamada nonce 1".to_vec();
    // signed for the predecessor height, not the last committed one
    let msg = encode_vext_msg(2, VALIDATOR_ADDR, &vec![event.clone()]);
    let sig = keyed_tag(VALIDATOR_KEY, &msg);
    let digest = VextDigest {
        signatures: vec![SigEntry { addr: VALIDATOR_ADDR, sig }],
        events: vec![MultiSignedEvent { payload: event, signers: vec![VALIDATOR_ADDR] }],
    };
    check_rejected_digest(&shell, digest, VALIDATOR_KEY);
}

#[test]
fn test_drop_vext_digest_with_invalid_validators() {
    let mut shell = setup_at_height(1);
    shell.storage.last_height = 2;
    // bertha is not in the active validator set
    let bertha_addr: u64 = 99;
    let bertha_key: u64 = 9999;
    let event = b"TransfersToNamada nonce 1".to_vec();
    let msg = encode_vext_msg(2, bertha_addr, &vec![event.clone()]);
    let sig = keyed_tag(bertha_key, &msg);
    let digest = VextDigest {
        signatures: vec![SigEntry { addr: bertha_addr, sig }],
        events: vec![MultiSignedEvent { payload: event, signers: vec![bertha_addr] }],
    };
    check_rejected_digest(&shell, digest, bertha_key);
}

#[test]
fn test_unsigned_wrapper_rejected() {
    let shell = setup_at_height(1);
    let keypair = gen_keypair();
    let inner = new_inner("wasm_code", "transaction data");
    let wrapper = new_wrapper(Fee { amount: 0, token: XAN }, keypair, 0, 0, &inner);
    let tx = encode_tx(&Tx { kind: TxKind::Wrapper(wrapper), sig: None });
    let response = shell.process_proposal(request(vec![tx, get_empty_eth_ev_digest(&shell)]));
    let result = &response.tx_results[0];
    assert_eq!(u32::from(result.code), u32::from(ErrorCodes::InvalidSig));
    assert_eq!(result.info, String::from("Wrapper transactions must be signed"));
}

#[test]
fn test_wrapper_bad_signature_rejected() {
    let shell = setup_at_height(1);
    let keypair = gen_keypair();
    let inner = new_inner("wasm_code", "transaction data");
    let wrapper = new_wrapper(Fee { amount: 100, token: XAN }, keypair, 0, 0, &inner);
    let signed = sign_kind(TxKind::Wrapper(wrapper), keypair);
    // we mount a malleability attack to try and remove the fee
    let mut tampered = match signed.kind {
        TxKind::Wrapper(w) => w,
        _ => panic!("Test failed"),
    };
    tampered.fee.amount = 0;
    let tx = encode_tx(&Tx { kind: TxKind::Wrapper(tampered), sig: signed.sig });
    let response = shell.process_proposal(request(vec![tx, get_empty_eth_ev_digest(&shell)]));
    let result = &response.tx_results[0];
    let expected_error = "Signature verification failed: Invalid signature";
    assert_eq!(u32::from(result.code), u32::from(ErrorCodes::InvalidSig));
    assert!(
        result.info.contains(expected_error),
        "Result info {} doesn't contain the expected error {}",
        result.info,
        expected_error
    );
}

#[test]
fn test_wrapper_unknown_address() {
    let shell = setup_at_height(1);
    // an account that storage has never seen; its balance defaults to 0
    let keypair = gen_keypair();
    let inner = new_inner("wasm_code", "transaction data");
    let wrapper = new_wrapper(Fee { amount: 1, token: XAN }, keypair, 0, 0, &inner);
    let tx = encode_tx(&sign_kind(TxKind::Wrapper(wrapper), keypair));
    let response = shell.process_proposal(request(vec![tx, get_empty_eth_ev_digest(&shell)]));
    let result = &response.tx_results[0];
    assert_eq!(u32::from(result.code), u32::from(ErrorCodes::InvalidTx));
    assert_eq!(
        result.info,
        "The address given does not have sufficient balance to pay fee".to_string()
    );
}

#[test]
fn test_wrapper_insufficient_balance_address() {
    let shell = setup_at_height(1);
    // the funded account holds 1_000_000, less than the fee demanded
    let keypair = DAEWON_KEY;
    let inner = new_inner("wasm_code", "transaction data");
    let wrapper = new_wrapper(Fee { amount: 1_000_100, token: XAN }, keypair, 0, 0, &inner);
    let tx = encode_tx(&sign_kind(TxKind::Wrapper(wrapper), keypair));
    let response = shell.process_proposal(request(vec![tx, get_empty_eth_ev_digest(&shell)]));
    let result = &response.tx_results[0];
    assert_eq!(u32::from(result.code), u32::from(ErrorCodes::InvalidTx));
    assert_eq!(
        result.info,
        String::from("The address given does not have sufficient balance to pay fee")
    );
}

#[test]
fn test_decrypted_txs_out_of_order() {
    let mut shell = setup_at_height(1);
    let keypair = gen_keypair();
    let mut txs: Vec<Vec<u8>> = vec![];
    for i in 0..3u64 {
        let inner = new_inner("wasm_code", &format!("transaction data: {}", i));
        let wrapper = new_wrapper(Fee { amount: i, token: XAN }, keypair, 0, 0, &inner);
        shell.enqueue_tx(wrapper);
        txs.push(encode_tx(&Tx {
            kind: TxKind::Decrypted(DecryptedTx::Decrypted(inner)),
            sig: None,
        }));
    }
    let response_1 = shell.process_proposal(request(vec![
        txs[0].clone(),
        get_empty_eth_ev_digest(&shell),
    ]));
    assert_eq!(u32::from(response_1.tx_results[0].code), u32::from(ErrorCodes::Okay));

    let response_2 = shell.process_proposal(request(vec![
        txs[2].clone(),
        get_empty_eth_ev_digest(&shell),
    ]));
    assert_eq!(response_2.status, ProposalStatus::Reject);
    assert_eq!(u32::from(response_2.tx_results[0].code), u32::from(ErrorCodes::InvalidOrder));
    assert_eq!(
        response_2.tx_results[0].info,
        String::from(
            "Process proposal rejected a decrypted transaction that violated the tx order determined in the previous block"
        ),
    );
}

#[test]
fn test_incorrectly_labelled_as_undecryptable() {
    let mut shell = setup_at_height(1);
    let keypair = gen_keypair();
    let inner = new_inner("wasm_code", "transaction data");
    let wrapper = new_wrapper(Fee { amount: 0, token: XAN }, keypair, 0, 0, &inner);
    shell.enqueue_tx(wrapper.clone());
    let tx = encode_tx(&Tx {
        kind: TxKind::Decrypted(DecryptedTx::Undecryptable(wrapper)),
        sig: None,
    });
    let response = shell.process_proposal(request(vec![tx, get_empty_eth_ev_digest(&shell)]));
    let result = &response.tx_results[0];
    assert_eq!(u32::from(result.code), u32::from(ErrorCodes::InvalidTx));
    assert_eq!(
        result.info,
        String::from("The encrypted payload of tx was incorrectly marked as un-decryptable"),
    );
}

#[test]
fn test_invalid_hash_commitment() {
    let mut shell = setup_at_height(1);
    let keypair = DAEWON_KEY;
    let inner = new_inner("wasm_code", "transaction data");
    let mut wrapper = new_wrapper(Fee { amount: 0, token: XAN }, keypair, 0, 0, &inner);
    // a commitment of all-zero bits cannot match the actual plaintext
    wrapper.tx_hash = 0;
    shell.enqueue_tx(wrapper.clone());
    let tx = encode_tx(&Tx {
        kind: TxKind::Decrypted(DecryptedTx::Undecryptable(wrapper)),
        sig: None,
    });
    let response = shell.process_proposal(request(vec![tx, get_empty_eth_ev_digest(&shell)]));
    assert_eq!(u32::from(response.tx_results[0].code), u32::from(ErrorCodes::Okay));
}

#[test]
fn test_undecryptable() {
    let mut shell = setup_at_height(1);
    let keypair = DAEWON_KEY;
    // not valid tx bytes
    let tx_bytes = "garbage data".as_bytes().to_owned();
    let inner_tx = encrypt(&tx_bytes);
    let wrapper = WrapperTx {
        fee: Fee { amount: 0, token: XAN },
        fee_payer_pk: keypair,
        epoch: 0,
        gas_limit: 0,
        tx_hash: hash_tx(&tx_bytes),
        ciphertext: inner_tx,
    };
    shell.enqueue_tx(wrapper.clone());
    let signed = encode_tx(&Tx {
        kind: TxKind::Decrypted(DecryptedTx::Undecryptable(wrapper)),
        sig: None,
    });
    let response = shell.process_proposal(request(vec![signed, get_empty_eth_ev_digest(&shell)]));
    assert_eq!(u32::from(response.tx_results[0].code), u32::from(ErrorCodes::Okay));
}

#[test]
fn test_too_many_decrypted_txs() {
    let shell = setup_at_height(1);
    let inner = new_inner("wasm_code", "transaction data");
    let tx = encode_tx(&Tx {
        kind: TxKind::Decrypted(DecryptedTx::Decrypted(inner)),
        sig: None,
    });
    let response = shell.process_proposal(request(vec![tx]));
    assert_eq!(response.status, ProposalStatus::Reject);
    assert_eq!(u32::from(response.tx_results[0].code), u32::from(ErrorCodes::ExtraTxs));
    assert_eq!(
        response.tx_results[0].info,
        String::from("Received more decrypted txs than expected"),
    );
}

#[test]
fn test_raw_tx_rejected() {
    let shell = setup_at_height(1);
    let inner = new_inner("wasm_code", "transaction data");
    let tx = encode_tx(&Tx { kind: TxKind::Raw(inner), sig: None });
    let response = shell.process_proposal(request(vec![tx, get_empty_eth_ev_digest(&shell)]));
    let result = &response.tx_results[0];
    assert_eq!(u32::from(result.code), u32::from(ErrorCodes::InvalidTx));
    assert_eq!(
        result.info,
        String::from("Transaction rejected: Non-encrypted transactions are not supported"),
    );
}
