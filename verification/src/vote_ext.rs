//! The vote-extension aggregator: decompress a digest into one signed
//! extension per validator, verify each against the registered protocol
//! key and the last committed height, and apply the strict two-thirds
//! stake threshold with exact arithmetic. A digest with even one signer
//! that fails verification is rejected whole.

use vstd::prelude::*;
use crate::codec::{copy_range, keyed_tag, se_lpbytes, spec_keyed_tag, spec_u64_bytes, write_lpbytes, write_u64};
use crate::codes::{ErrorCodes, TxResult};
use crate::power::FractionalVotingPower;
use crate::storage::{spec_find_validator, spec_power_of, Storage, ValidatorInfo};
use crate::tx::{MultiSignedEvent, MultiSignedEventV, SigEntry, VextDigest, VextDigestV};

verus! {

broadcast use crate::codec::lemma_u64_bytes_len;

// ---------------------------------------------------------------------
// Decompression: the events one validator attested to
// ---------------------------------------------------------------------

/// The payloads of the digest events whose signer set contains `addr`,
/// in digest order: the event list of that validator's reconstructed
/// vote extension.
pub open spec fn spec_events_for(events: Seq<MultiSignedEventV>, addr: u64)
    -> Seq<Seq<u8>>
    decreases events.len(),
{
    if events.len() == 0 {
        Seq::empty()
    } else {
        spec_events_for(events.drop_last(), addr)
            + (if events.last().signers.contains(addr) {
                seq![events.last().payload]
            } else {
                Seq::<Seq<u8>>::empty()
            })
    }
}

fn contains_addr(s: &Vec<u64>, addr: u64) -> (r: bool)
    ensures
        r == s@.contains(addr),
{
    let mut i: usize = 0;
    while i < s.len()
        invariant
            i <= s@.len(),
            forall|j: int| 0 <= j < i ==> s@[j] != addr,
        decreases s@.len() - i,
    {
        if s[i] == addr {
            proof {
                assert(s@[i as int] == addr);
            }
            return true;
        }
        i = i + 1;
    }
    proof {
        assert(!s@.contains(addr));
    }
    false
}

pub fn events_for(events: &Vec<MultiSignedEvent>, addr: u64) -> (r: Vec<Vec<u8>>)
    ensures
        r@.map_values(|v: Vec<u8>| v@)
            == spec_events_for(events@.map_values(|e: MultiSignedEvent| e@), addr),
{
    let ghost ev = events@.map_values(|e: MultiSignedEvent| e@);
    let mut r: Vec<Vec<u8>> = Vec::new();
    proof {
        assert(r@.map_values(|v: Vec<u8>| v@) =~= spec_events_for(ev.take(0), addr));
    }
    let mut i: usize = 0;
    while i < events.len()
        invariant
            i <= events@.len(),
            ev == events@.map_values(|e: MultiSignedEvent| e@),
            r@.map_values(|v: Vec<u8>| v@) == spec_events_for(ev.take(i as int), addr),
        decreases events@.len() - i,
    {
        proof {
            assert(ev.take(i as int + 1).drop_last() =~= ev.take(i as int));
            assert(ev.take(i as int + 1).last() == ev[i as int]);
            assert(ev[i as int] == events@[i as int]@);
        }
        if contains_addr(&events[i].signers, addr) {
            let payload = copy_range(&events[i].payload, 0, events[i].payload.len());
            proof {
                assert(payload@ =~= events@[i as int]@.payload);
            }
            r.push(payload);
            proof {
                assert(r@.map_values(|v: Vec<u8>| v@)
                    =~= spec_events_for(ev.take(i as int + 1), addr));
            }
        } else {
            proof {
                assert(r@.map_values(|v: Vec<u8>| v@)
                    =~= spec_events_for(ev.take(i as int + 1), addr));
            }
        }
        i = i + 1;
    }
    proof {
        assert(ev.take(ev.len() as int) =~= ev);
    }
    r
}

// ---------------------------------------------------------------------
// The reconstructed extension and its signature
// ---------------------------------------------------------------------

pub open spec fn se_payload_list(evs: Seq<Seq<u8>>) -> Seq<u8>
    decreases evs.len(),
{
    if evs.len() == 0 {
        Seq::empty()
    } else {
        se_payload_list(evs.drop_last()) + se_lpbytes(evs.last())
    }
}

/// The canonical bytes a validator signs for its vote extension: the
/// block height, its own address, and the events it attests to. The
/// height is part of the signed message, so an extension signed for any
/// other height cannot verify against the reconstruction.
pub open spec fn se_vext(height: u64, addr: u64, evs: Seq<Seq<u8>>) -> Seq<u8> {
    spec_u64_bytes(height) + spec_u64_bytes(addr)
        + spec_u64_bytes(evs.len() as u64) + se_payload_list(evs)
}

pub fn encode_vext_msg(height: u64, addr: u64, evs: &Vec<Vec<u8>>) -> (r: Vec<u8>)
    ensures
        r@ == se_vext(height, addr, evs@.map_values(|v: Vec<u8>| v@)),
{
    let ghost evv = evs@.map_values(|v: Vec<u8>| v@);
    let mut out: Vec<u8> = Vec::new();
    write_u64(&mut out, height);
    write_u64(&mut out, addr);
    write_u64(&mut out, evs.len() as u64);
    let ghost head = out@;
    let mut i: usize = 0;
    while i < evs.len()
        invariant
            i <= evs@.len(),
            evv == evs@.map_values(|v: Vec<u8>| v@),
            out@ == head + se_payload_list(evv.take(i as int)),
        decreases evs@.len() - i,
    {
        write_lpbytes(&mut out, &evs[i]);
        proof {
            assert(evv.take(i as int + 1).drop_last() =~= evv.take(i as int));
            assert(evv.take(i as int + 1).last() == evv[i as int]);
            assert(out@ =~= head + se_payload_list(evv.take(i as int + 1)));
        }
        i = i + 1;
    }
    proof {
        assert(evv.take(evv.len() as int) =~= evv);
        assert(out@ =~= se_vext(height, addr, evv));
    }
    out
}

/// One decompressed extension verifies: its signer is a known active
/// validator and its signature covers the reconstruction at the last
/// committed height.
pub open spec fn spec_vext_valid(
    vs: Seq<ValidatorInfo>,
    height: u64,
    events: Seq<MultiSignedEventV>,
    entry: SigEntry,
) -> bool {
    match spec_find_validator(vs, entry.addr) {
        Some(v) => entry.sig == spec_keyed_tag(
            v.protocol_key,
            se_vext(height, entry.addr, spec_events_for(events, entry.addr)),
        ),
        None => false,
    }
}

pub open spec fn spec_all_vexts_valid(vs: Seq<ValidatorInfo>, height: u64, d: VextDigestV) -> bool {
    forall|i: int| 0 <= i < d.signatures.len()
        ==> spec_vext_valid(vs, height, d.events, #[trigger] d.signatures[i])
}

/// Total power of a digest's signers (an unknown signer counts zero;
/// such a digest is rejected before the threshold matters).
pub open spec fn spec_signer_power_sum(vs: Seq<ValidatorInfo>, sigs: Seq<SigEntry>) -> int
    decreases sigs.len(),
{
    if sigs.len() == 0 {
        0int
    } else {
        spec_signer_power_sum(vs, sigs.drop_last()) + spec_power_of(vs, sigs.last().addr)
    }
}

/// The aggregator's verdict on one digest: all-or-nothing individual
/// verification, then the strict two-thirds threshold on exact
/// fractional voting power.
pub open spec fn spec_digest_code(vs: Seq<ValidatorInfo>, total: u64, height: u64, d: VextDigestV) -> ErrorCodes {
    if !spec_all_vexts_valid(vs, height, d) {
        ErrorCodes::InvalidVoteExtension
    } else if 3 * spec_signer_power_sum(vs, d.signatures) > 2 * total {
        ErrorCodes::Okay
    } else {
        ErrorCodes::InvalidVoteExtension
    }
}

pub fn validate_vext_digest(s: &Storage, d: &VextDigest) -> (r: TxResult)
    requires
        s.wf(),
    ensures
        r.code == spec_digest_code(s.validators@, s.total_voting_power, s.last_height, d@),
        spec_all_vexts_valid(s.validators@, s.last_height, d@)
            && 3 * spec_signer_power_sum(s.validators@, d@.signatures) > 2 * s.total_voting_power
            ==> r.info@ == "Process proposal accepted this transaction"@,
        spec_all_vexts_valid(s.validators@, s.last_height, d@)
            && !(3 * spec_signer_power_sum(s.validators@, d@.signatures) > 2 * s.total_voting_power)
            ==> r.info@ == "Process proposal rejected this proposal because the backing stake of the vote extensions published in the proposal was insufficient"@,
        !spec_all_vexts_valid(s.validators@, s.last_height, d@)
            ==> r.info@ == "Process proposal rejected this proposal because at least one of the vote extensions included was invalid."@,
{
    let epoch = s.get_epoch(s.last_height);
    let total = s.get_total_voting_power(epoch);
    let mut power = FractionalVotingPower::zero(total);
    let mut all_valid = true;
    let ghost dv = d@;
    let mut i: usize = 0;
    while i < d.signatures.len()
        invariant
            s.wf(),
            i <= d.signatures@.len(),
            total == s.total_voting_power,
            dv == d@,
            power.den == total,
            power.num <= i * 0xffff_ffff_ffff_ffffu64,
            all_valid == (forall|j: int| 0 <= j < i
                ==> spec_vext_valid(s.validators@, s.last_height, dv.events, #[trigger] dv.signatures[j])),
            all_valid ==> power.num
                == spec_signer_power_sum(s.validators@, dv.signatures.take(i as int)),
        decreases d.signatures@.len() - i,
    {
        let entry = d.signatures[i];
        let evs = events_for(&d.events, entry.addr);
        let msg = encode_vext_msg(s.last_height, entry.addr, &evs);
        proof {
            assert(dv.signatures.take(i as int + 1).drop_last() =~= dv.signatures.take(i as int));
            assert(dv.signatures.take(i as int + 1).last() == dv.signatures[i as int]);
            assert(entry == dv.signatures[i as int]);
        }
        match s.get_validator(entry.addr) {
            Some(v) => {
                let tag = keyed_tag(v.protocol_key, &msg);
                if entry.sig != tag {
                    all_valid = false;
                    proof {
                        assert(!spec_vext_valid(s.validators@, s.last_height, dv.events, dv.signatures[i as int]));
                    }
                } else {
                    proof {
                        assert(spec_vext_valid(s.validators@, s.last_height, dv.events, dv.signatures[i as int]));
                        assert(spec_power_of(s.validators@, entry.addr) == v.power);
                    }
                    power.add_power(v.power);
                }
            },
            None => {
                all_valid = false;
                proof {
                    assert(!spec_vext_valid(s.validators@, s.last_height, dv.events, dv.signatures[i as int]));
                }
            },
        }
        i = i + 1;
    }
    proof {
        assert(dv.signatures.take(dv.signatures.len() as int) =~= dv.signatures);
    }
    if all_valid {
        if power.exceeds_two_thirds() {
            TxResult::new(ErrorCodes::Okay, "Process proposal accepted this transaction")
        } else {
            TxResult::new(
                ErrorCodes::InvalidVoteExtension,
                "Process proposal rejected this proposal because the backing stake of the vote extensions published in the proposal was insufficient",
            )
        }
    } else {
        TxResult::new(
            ErrorCodes::InvalidVoteExtension,
            "Process proposal rejected this proposal because at least one of the vote extensions included was invalid.",
        )
    }
}

} // verus!
