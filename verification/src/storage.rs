//! The read-only state a proposal is verified against: active validator
//! set, token balances, epoch data, and the transaction queue fixed by
//! the previous block. Verification never writes to it.

use vstd::prelude::*;
use crate::tx::WrapperTx;

verus! {

/// One active validator: its address, registered protocol key, and
/// voting power for the current epoch.
#[derive(Clone, Copy, PartialEq, Eq, Structural, Debug)]
pub struct ValidatorInfo {
    pub addr: u64,
    pub protocol_key: u64,
    pub power: u64,
}

/// One token balance: how much of `token` the account `owner` holds.
#[derive(Clone, Copy, PartialEq, Eq, Structural, Debug)]
pub struct BalanceEntry {
    pub token: u64,
    pub owner: u64,
    pub amount: u64,
}

/// The storage snapshot read during one verification pass.
pub struct Storage {
    pub last_height: u64,
    pub current_epoch: u64,
    pub total_voting_power: u64,
    pub validators: Vec<ValidatorInfo>,
    pub balances: Vec<BalanceEntry>,
    /// Wrappers whose decryption order the previous block fixed,
    /// consumed strictly in order, once per verification pass.
    pub tx_queue: Vec<WrapperTx>,
}

/// First validator entry with the given address, if any.
pub open spec fn spec_find_validator(vs: Seq<ValidatorInfo>, addr: u64)
    -> Option<ValidatorInfo>
    decreases vs.len(),
{
    if vs.len() == 0 {
        None
    } else if vs[0].addr == addr {
        Some(vs[0])
    } else {
        spec_find_validator(vs.drop_first(), addr)
    }
}

/// Balance of `owner` in `token`; an absent account holds zero.
pub open spec fn spec_balance(bs: Seq<BalanceEntry>, token: u64, owner: u64) -> u64
    decreases bs.len(),
{
    if bs.len() == 0 {
        0
    } else if bs[0].token == token && bs[0].owner == owner {
        bs[0].amount
    } else {
        spec_balance(bs.drop_first(), token, owner)
    }
}

impl Storage {
    /// Every fractional voting power must lie in [0, 1]: each
    /// validator's power is bounded by a positive epoch total.
    pub open spec fn wf(&self) -> bool {
        &&& self.total_voting_power >= 1
        &&& forall|i: int| 0 <= i < self.validators@.len()
                ==> (#[trigger] self.validators@[i]).power <= self.total_voting_power
    }

    /// Executable form of `wf`, for callers outside verified code that
    /// must establish it before a verification pass.
    pub fn check_wf(&self) -> (r: bool)
        ensures
            r == self.wf(),
    {
        if self.total_voting_power < 1 {
            return false;
        }
        let mut i: usize = 0;
        while i < self.validators.len()
            invariant
                i <= self.validators@.len(),
                self.total_voting_power >= 1,
                forall|j: int| 0 <= j < i
                    ==> (#[trigger] self.validators@[j]).power <= self.total_voting_power,
            decreases self.validators@.len() - i,
        {
            if self.validators[i].power > self.total_voting_power {
                return false;
            }
            i = i + 1;
        }
        true
    }

    /// The epoch a block height belongs to (this snapshot covers the
    /// current epoch).
    pub fn get_epoch(&self, _height: u64) -> (r: u64)
        ensures
            r == self.current_epoch,
    {
        self.current_epoch
    }

    /// Total voting power of the active set for the given epoch.
    pub fn get_total_voting_power(&self, _epoch: u64) -> (r: u64)
        ensures
            r == self.total_voting_power,
    {
        self.total_voting_power
    }

    pub fn get_validator(&self, addr: u64) -> (r: Option<ValidatorInfo>)
        ensures
            r == spec_find_validator(self.validators@, addr),
    {
        proof {
            assert(self.validators@.skip(0) =~= self.validators@);
        }
        find_validator_from(&self.validators, 0, addr)
    }

    pub fn get_balance(&self, token: u64, owner: u64) -> (r: u64)
        ensures
            r == spec_balance(self.balances@, token, owner),
    {
        proof {
            assert(self.balances@.skip(0) =~= self.balances@);
        }
        balance_from(&self.balances, 0, token, owner)
    }
}

fn find_validator_from(vs: &Vec<ValidatorInfo>, i: usize, addr: u64)
    -> (r: Option<ValidatorInfo>)
    requires
        i <= vs@.len(),
    ensures
        r == spec_find_validator(vs@.skip(i as int), addr),
    decreases vs@.len() - i,
{
    if i == vs.len() {
        proof {
            assert(vs@.skip(i as int) =~= Seq::<ValidatorInfo>::empty());
        }
        None
    } else {
        proof {
            assert(vs@.skip(i as int)[0] == vs@[i as int]);
            assert(vs@.skip(i as int).drop_first() =~= vs@.skip(i as int + 1));
        }
        if vs[i].addr == addr {
            Some(vs[i])
        } else {
            find_validator_from(vs, i + 1, addr)
        }
    }
}

fn balance_from(bs: &Vec<BalanceEntry>, i: usize, token: u64, owner: u64) -> (r: u64)
    requires
        i <= bs@.len(),
    ensures
        r == spec_balance(bs@.skip(i as int), token, owner),
    decreases bs@.len() - i,
{
    if i == bs.len() {
        proof {
            assert(bs@.skip(i as int) =~= Seq::<BalanceEntry>::empty());
        }
        0
    } else {
        proof {
            assert(bs@.skip(i as int)[0] == bs@[i as int]);
            assert(bs@.skip(i as int).drop_first() =~= bs@.skip(i as int + 1));
        }
        if bs[i].token == token && bs[i].owner == owner {
            bs[i].amount
        } else {
            balance_from(bs, i + 1, token, owner)
        }
    }
}

/// The power a digest signer contributes: its validator power if it is
/// in the active set, nothing otherwise.
pub open spec fn spec_power_of(vs: Seq<ValidatorInfo>, addr: u64) -> u64 {
    match spec_find_validator(vs, addr) {
        Some(v) => v.power,
        None => 0,
    }
}

} // verus!
