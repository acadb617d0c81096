//! Total decoder of the transaction wire format. Decoding either yields
//! a transaction or fails; it consumes the whole input, enforces strictly
//! increasing validator addresses inside a digest (each validator at most
//! once), and can never panic, whatever bytes a Byzantine proposer sends.

use vstd::prelude::*;
use crate::codec::{read_lpbytes, read_u64, sd_lpbytes, sd_u64};
use crate::tx::{
    DecryptedTx, DecryptedTxV, InnerTx, InnerTxV, Fee, MultiSignedEvent,
    MultiSignedEventV, ProtocolTx, ProtocolTxV, ProtocolTxKind, ProtocolTxKindV,
    SigEntry, Tx, TxV, TxKind, TxKindV, VextDigest, VextDigestV, WrapperTx,
    WrapperTxV,
};

verus! {

// ---------------------------------------------------------------------
// Specification side
// ---------------------------------------------------------------------

pub open spec fn sd_u8(b: Seq<u8>, p: int) -> Option<(u8, int)> {
    if 0 <= p && p + 1 <= b.len() {
        Some((b[p], p + 1))
    } else {
        None
    }
}

pub open spec fn sd_inner(b: Seq<u8>, p: int) -> Option<(InnerTxV, int)> {
    match sd_lpbytes(b, p) {
        None => None,
        Some((code, p1)) => match sd_lpbytes(b, p1) {
            None => None,
            Some((data, p2)) => Some((InnerTxV { code, data }, p2)),
        },
    }
}

pub open spec fn sd_wrapper(b: Seq<u8>, p: int) -> Option<(WrapperTxV, int)> {
    match sd_u64(b, p) {
        None => None,
        Some((amount, p1)) => match sd_u64(b, p1) {
            None => None,
            Some((token, p2)) => match sd_u64(b, p2) {
                None => None,
                Some((pk, p3)) => match sd_u64(b, p3) {
                    None => None,
                    Some((epoch, p4)) => match sd_u64(b, p4) {
                        None => None,
                        Some((gas, p5)) => match sd_u64(b, p5) {
                            None => None,
                            Some((txh, p6)) => match sd_lpbytes(b, p6) {
                                None => None,
                                Some((ct, p7)) => Some((WrapperTxV {
                                    fee: Fee { amount, token },
                                    fee_payer_pk: pk,
                                    epoch,
                                    gas_limit: gas,
                                    tx_hash: txh,
                                    ciphertext: ct,
                                }, p7)),
                            },
                        },
                    },
                },
            },
        },
    }
}

/// Parse `n` signature entries whose addresses strictly increase,
/// each above the bound `lo` if one is given.
pub open spec fn sd_sigs(b: Seq<u8>, p: int, n: u64, lo: Option<u64>)
    -> Option<(Seq<SigEntry>, int)>
    decreases n,
{
    if n == 0 {
        Some((Seq::empty(), p))
    } else {
        match sd_u64(b, p) {
            None => None,
            Some((addr, p1)) => match sd_u64(b, p1) {
                None => None,
                Some((sig, p2)) => {
                    let in_order = match lo {
                        None => true,
                        Some(l) => addr > l,
                    };
                    if in_order {
                        match sd_sigs(b, p2, (n - 1) as u64, Some(addr)) {
                            None => None,
                            Some((rest, p3)) =>
                                Some((seq![SigEntry { addr, sig }] + rest, p3)),
                        }
                    } else {
                        None
                    }
                },
            },
        }
    }
}

/// Parse `n` signer addresses, strictly increasing above `lo`.
pub open spec fn sd_signers(b: Seq<u8>, p: int, n: u64, lo: Option<u64>)
    -> Option<(Seq<u64>, int)>
    decreases n,
{
    if n == 0 {
        Some((Seq::empty(), p))
    } else {
        match sd_u64(b, p) {
            None => None,
            Some((addr, p1)) => {
                let in_order = match lo {
                    None => true,
                    Some(l) => addr > l,
                };
                if in_order {
                    match sd_signers(b, p1, (n - 1) as u64, Some(addr)) {
                        None => None,
                        Some((rest, p2)) => Some((seq![addr] + rest, p2)),
                    }
                } else {
                    None
                }
            },
        }
    }
}

pub open spec fn sd_event(b: Seq<u8>, p: int) -> Option<(MultiSignedEventV, int)> {
    match sd_lpbytes(b, p) {
        None => None,
        Some((payload, p1)) => match sd_u64(b, p1) {
            None => None,
            Some((k, p2)) => match sd_signers(b, p2, k, None) {
                None => None,
                Some((signers, p3)) =>
                    Some((MultiSignedEventV { payload, signers }, p3)),
            },
        },
    }
}

pub open spec fn sd_events(b: Seq<u8>, p: int, n: u64)
    -> Option<(Seq<MultiSignedEventV>, int)>
    decreases n,
{
    if n == 0 {
        Some((Seq::empty(), p))
    } else {
        match sd_event(b, p) {
            None => None,
            Some((e, p1)) => match sd_events(b, p1, (n - 1) as u64) {
                None => None,
                Some((rest, p2)) => Some((seq![e] + rest, p2)),
            },
        }
    }
}

pub open spec fn sd_digest(b: Seq<u8>, p: int) -> Option<(VextDigestV, int)> {
    match sd_u64(b, p) {
        None => None,
        Some((n, p1)) => match sd_sigs(b, p1, n, None) {
            None => None,
            Some((signatures, p2)) => match sd_u64(b, p2) {
                None => None,
                Some((m, p3)) => match sd_events(b, p3, m) {
                    None => None,
                    Some((events, p4)) =>
                        Some((VextDigestV { signatures, events }, p4)),
                },
            },
        },
    }
}

pub open spec fn sd_protocol_body(b: Seq<u8>, p: int) -> Option<(ProtocolTxV, int)> {
    match sd_u64(b, p) {
        None => None,
        Some((pk, p1)) => match sd_u64(b, p1) {
            None => None,
            Some((k, p2)) => {
                if k == 0 {
                    match sd_digest(b, p2) {
                        None => None,
                        Some((d, p3)) => Some((ProtocolTxV {
                            pk,
                            kind: ProtocolTxKindV::EthereumEvents(d),
                        }, p3)),
                    }
                } else {
                    match sd_lpbytes(b, p2) {
                        None => None,
                        Some((payload, p3)) => Some((ProtocolTxV {
                            pk,
                            kind: ProtocolTxKindV::Other(k, payload),
                        }, p3)),
                    }
                }
            },
        },
    }
}

pub open spec fn sd_decrypted(b: Seq<u8>, p: int) -> Option<(DecryptedTxV, int)> {
    match sd_u8(b, p) {
        None => None,
        Some((sub, p1)) => {
            if sub == 0 {
                match sd_inner(b, p1) {
                    None => None,
                    Some((t, p2)) => Some((DecryptedTxV::Decrypted(t), p2)),
                }
            } else if sub == 1 {
                match sd_wrapper(b, p1) {
                    None => None,
                    Some((w, p2)) => Some((DecryptedTxV::Undecryptable(w), p2)),
                }
            } else {
                None
            }
        },
    }
}

/// Decode a whole transaction envelope; all input bytes must be consumed.
pub open spec fn sd_tx(b: Seq<u8>) -> Option<TxV> {
    match sd_u8(b, 0) {
        None => None,
        Some((tag, p0)) => match sd_u8(b, p0) {
            None => None,
            Some((flag, p1)) => {
                let sig_part: Option<(Option<u64>, int)> = if flag == 0 {
                    Some((None, p1))
                } else if flag == 1 {
                    match sd_u64(b, p1) {
                        None => None,
                        Some((s, p2)) => Some((Some(s), p2)),
                    }
                } else {
                    None
                };
                match sig_part {
                    None => None,
                    Some((sig, p2)) => {
                        let body: Option<(TxKindV, int)> = if tag == 0 {
                            match sd_inner(b, p2) {
                                None => None,
                                Some((t, pe)) => Some((TxKindV::Raw(t), pe)),
                            }
                        } else if tag == 1 {
                            match sd_protocol_body(b, p2) {
                                None => None,
                                Some((p, pe)) => Some((TxKindV::Protocol(p), pe)),
                            }
                        } else if tag == 2 {
                            match sd_decrypted(b, p2) {
                                None => None,
                                Some((d, pe)) => Some((TxKindV::Decrypted(d), pe)),
                            }
                        } else if tag == 3 {
                            match sd_wrapper(b, p2) {
                                None => None,
                                Some((w, pe)) => Some((TxKindV::Wrapper(w), pe)),
                            }
                        } else {
                            None
                        };
                        match body {
                            None => None,
                            Some((kind, pe)) => {
                                if pe == b.len() {
                                    Some(TxV { kind, sig })
                                } else {
                                    None
                                }
                            },
                        }
                    },
                }
            },
        },
    }
}

// ---------------------------------------------------------------------
// Executable side
// ---------------------------------------------------------------------

pub fn rd_u8(b: &Vec<u8>, p: usize) -> (r: Option<(u8, usize)>)
    ensures
        (match r {
            Some((v, q)) => sd_u8(b@, p as int) == Some((v, q as int)),
            None => sd_u8(b@, p as int) is None,
        }),
{
    if p < b.len() {
        Some((b[p], p + 1))
    } else {
        None
    }
}

pub fn rd_inner(b: &Vec<u8>, p: usize) -> (r: Option<(InnerTx, usize)>)
    ensures
        (match r {
            Some((v, q)) => sd_inner(b@, p as int) == Some((v@, q as int)),
            None => sd_inner(b@, p as int) is None,
        }),
{
    match read_lpbytes(b, p) {
        None => None,
        Some((code, p1)) => match read_lpbytes(b, p1) {
            None => None,
            Some((data, p2)) => Some((InnerTx { code, data }, p2)),
        },
    }
}

pub fn rd_wrapper(b: &Vec<u8>, p: usize) -> (r: Option<(WrapperTx, usize)>)
    ensures
        (match r {
            Some((v, q)) => sd_wrapper(b@, p as int) == Some((v@, q as int)),
            None => sd_wrapper(b@, p as int) is None,
        }),
{
    match read_u64(b, p) {
        None => None,
        Some((amount, p1)) => match read_u64(b, p1) {
            None => None,
            Some((token, p2)) => match read_u64(b, p2) {
                None => None,
                Some((pk, p3)) => match read_u64(b, p3) {
                    None => None,
                    Some((epoch, p4)) => match read_u64(b, p4) {
                        None => None,
                        Some((gas, p5)) => match read_u64(b, p5) {
                            None => None,
                            Some((txh, p6)) => match read_lpbytes(b, p6) {
                                None => None,
                                Some((ct, p7)) => Some((WrapperTx {
                                    fee: Fee { amount, token },
                                    fee_payer_pk: pk,
                                    epoch,
                                    gas_limit: gas,
                                    tx_hash: txh,
                                    ciphertext: ct,
                                }, p7)),
                            },
                        },
                    },
                },
            },
        },
    }
}

pub fn rd_sigs(b: &Vec<u8>, p: usize, n: u64, lo: Option<u64>)
    -> (r: Option<(Vec<SigEntry>, usize)>)
    ensures
        (match r {
            Some((v, q)) => sd_sigs(b@, p as int, n, lo) == Some((v@, q as int)),
            None => sd_sigs(b@, p as int, n, lo) is None,
        }),
    decreases n,
{
    if n == 0 {
        Some((Vec::new(), p))
    } else {
        match read_u64(b, p) {
            None => None,
            Some((addr, p1)) => match read_u64(b, p1) {
                None => None,
                Some((sig, p2)) => {
                    let in_order = match lo {
                        None => true,
                        Some(l) => addr > l,
                    };
                    if in_order {
                        match rd_sigs(b, p2, n - 1, Some(addr)) {
                            None => None,
                            Some((mut rest, p3)) => {
                                let ghost tail = rest@;
                                rest.insert(0, SigEntry { addr, sig });
                                proof {
                                    assert(rest@ =~= seq![SigEntry { addr, sig }] + tail);
                                }
                                Some((rest, p3))
                            },
                        }
                    } else {
                        None
                    }
                },
            },
        }
    }
}

pub fn rd_signers(b: &Vec<u8>, p: usize, n: u64, lo: Option<u64>)
    -> (r: Option<(Vec<u64>, usize)>)
    ensures
        (match r {
            Some((v, q)) => sd_signers(b@, p as int, n, lo) == Some((v@, q as int)),
            None => sd_signers(b@, p as int, n, lo) is None,
        }),
    decreases n,
{
    if n == 0 {
        Some((Vec::new(), p))
    } else {
        match read_u64(b, p) {
            None => None,
            Some((addr, p1)) => {
                let in_order = match lo {
                    None => true,
                    Some(l) => addr > l,
                };
                if in_order {
                    match rd_signers(b, p1, n - 1, Some(addr)) {
                        None => None,
                        Some((mut rest, p2)) => {
                            let ghost tail = rest@;
                            rest.insert(0, addr);
                            proof {
                                assert(rest@ =~= seq![addr] + tail);
                            }
                            Some((rest, p2))
                        },
                    }
                } else {
                    None
                }
            },
        }
    }
}

pub fn rd_event(b: &Vec<u8>, p: usize) -> (r: Option<(MultiSignedEvent, usize)>)
    ensures
        (match r {
            Some((v, q)) => sd_event(b@, p as int) == Some((v@, q as int)),
            None => sd_event(b@, p as int) is None,
        }),
{
    match read_lpbytes(b, p) {
        None => None,
        Some((payload, p1)) => match read_u64(b, p1) {
            None => None,
            Some((k, p2)) => match rd_signers(b, p2, k, None) {
                None => None,
                Some((signers, p3)) =>
                    Some((MultiSignedEvent { payload, signers }, p3)),
            },
        },
    }
}

pub fn rd_events(b: &Vec<u8>, p: usize, n: u64)
    -> (r: Option<(Vec<MultiSignedEvent>, usize)>)
    ensures
        (match r {
            Some((v, q)) => sd_events(b@, p as int, n)
                == Some((v@.map_values(|e: MultiSignedEvent| e@), q as int)),
            None => sd_events(b@, p as int, n) is None,
        }),
    decreases n,
{
    if n == 0 {
        let v: Vec<MultiSignedEvent> = Vec::new();
        proof {
            assert(v@.map_values(|e: MultiSignedEvent| e@)
                =~= Seq::<MultiSignedEventV>::empty());
        }
        Some((v, p))
    } else {
        match rd_event(b, p) {
            None => None,
            Some((e, p1)) => match rd_events(b, p1, n - 1) {
                None => None,
                Some((mut rest, p2)) => {
                    let ghost tail = rest@.map_values(|x: MultiSignedEvent| x@);
                    let ghost ev = e@;
                    rest.insert(0, e);
                    proof {
                        assert(rest@.map_values(|x: MultiSignedEvent| x@)
                            =~= seq![ev] + tail);
                    }
                    Some((rest, p2))
                },
            },
        }
    }
}

pub fn rd_digest(b: &Vec<u8>, p: usize) -> (r: Option<(VextDigest, usize)>)
    ensures
        (match r {
            Some((v, q)) => sd_digest(b@, p as int) == Some((v@, q as int)),
            None => sd_digest(b@, p as int) is None,
        }),
{
    match read_u64(b, p) {
        None => None,
        Some((n, p1)) => match rd_sigs(b, p1, n, None) {
            None => None,
            Some((signatures, p2)) => match read_u64(b, p2) {
                None => None,
                Some((m, p3)) => match rd_events(b, p3, m) {
                    None => None,
                    Some((events, p4)) =>
                        Some((VextDigest { signatures, events }, p4)),
                },
            },
        },
    }
}

pub fn rd_protocol_body(b: &Vec<u8>, p: usize) -> (r: Option<(ProtocolTx, usize)>)
    ensures
        (match r {
            Some((v, q)) => sd_protocol_body(b@, p as int) == Some((v@, q as int)),
            None => sd_protocol_body(b@, p as int) is None,
        }),
{
    match read_u64(b, p) {
        None => None,
        Some((pk, p1)) => match read_u64(b, p1) {
            None => None,
            Some((k, p2)) => {
                if k == 0 {
                    match rd_digest(b, p2) {
                        None => None,
                        Some((d, p3)) => Some((ProtocolTx {
                            pk,
                            kind: ProtocolTxKind::EthereumEvents(d),
                        }, p3)),
                    }
                } else {
                    match read_lpbytes(b, p2) {
                        None => None,
                        Some((payload, p3)) => Some((ProtocolTx {
                            pk,
                            kind: ProtocolTxKind::Other(k, payload),
                        }, p3)),
                    }
                }
            },
        },
    }
}

pub fn rd_decrypted(b: &Vec<u8>, p: usize) -> (r: Option<(DecryptedTx, usize)>)
    ensures
        (match r {
            Some((v, q)) => sd_decrypted(b@, p as int) == Some((v@, q as int)),
            None => sd_decrypted(b@, p as int) is None,
        }),
{
    match rd_u8(b, p) {
        None => None,
        Some((sub, p1)) => {
            if sub == 0 {
                match rd_inner(b, p1) {
                    None => None,
                    Some((t, p2)) => Some((DecryptedTx::Decrypted(t), p2)),
                }
            } else if sub == 1 {
                match rd_wrapper(b, p1) {
                    None => None,
                    Some((w, p2)) => Some((DecryptedTx::Undecryptable(w), p2)),
                }
            } else {
                None
            }
        },
    }
}

/// Decode a transaction from raw proposal bytes. Total: adversarial
/// bytes yield `None`, never a crash.
pub fn decode_tx(b: &Vec<u8>) -> (r: Option<Tx>)
    ensures
        (match r {
            Some(t) => sd_tx(b@) == Some(t@),
            None => sd_tx(b@) is None,
        }),
{
    match rd_u8(b, 0) {
        None => None,
        Some((tag, p0)) => match rd_u8(b, p0) {
            None => None,
            Some((flag, p1)) => {
                let sig_part: Option<(Option<u64>, usize)> = if flag == 0 {
                    Some((None, p1))
                } else if flag == 1 {
                    match read_u64(b, p1) {
                        None => None,
                        Some((s, p2)) => Some((Some(s), p2)),
                    }
                } else {
                    None
                };
                match sig_part {
                    None => None,
                    Some((sig, p2)) => {
                        let body: Option<(TxKind, usize)> = if tag == 0 {
                            match rd_inner(b, p2) {
                                None => None,
                                Some((t, pe)) => Some((TxKind::Raw(t), pe)),
                            }
                        } else if tag == 1 {
                            match rd_protocol_body(b, p2) {
                                None => None,
                                Some((p, pe)) => Some((TxKind::Protocol(p), pe)),
                            }
                        } else if tag == 2 {
                            match rd_decrypted(b, p2) {
                                None => None,
                                Some((d, pe)) => Some((TxKind::Decrypted(d), pe)),
                            }
                        } else if tag == 3 {
                            match rd_wrapper(b, p2) {
                                None => None,
                                Some((w, pe)) => Some((TxKind::Wrapper(w), pe)),
                            }
                        } else {
                            None
                        };
                        match body {
                            None => None,
                            Some((kind, pe)) => {
                                if pe == b.len() {
                                    Some(Tx { kind, sig })
                                } else {
                                    None
                                }
                            },
                        }
                    },
                }
            },
        },
    }
}

} // verus!
