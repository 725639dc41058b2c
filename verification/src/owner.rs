//! Owner-gated configuration: the reward rate and the stake/claim fee are
//! process-wide values, mutable only by the designated owner identity.
use crate::{Contract, ContractView, StakeError};
use vstd::prelude::*;

verus! {

impl Contract {
    /// Refuse any signer that is not the configured owner.
    pub fn assert_owner_signer(&self, signer_id: u64) -> (r: Result<(), StakeError>)
        ensures
            r == if signer_id == self@.owner_id {
                Ok::<(), StakeError>(())
            } else {
                Err::<(), StakeError>(StakeError::NotOwner)
            },
    {
        if self.owner_id == signer_id {
            Ok(())
        } else {
            Err(StakeError::NotOwner)
        }
    }

    /// Set the reward rate, owner-gated; a non-owner changes nothing.
    pub fn set_reward_rate(&mut self, signer_id: u64, rate: u8) -> (r: Result<(), StakeError>)
        ensures
            match r {
                Ok(()) => signer_id == old(self)@.owner_id && final(self)@ == (ContractView {
                    cookie_reward_rate: rate,
                    ..old(self)@
                }),
                Err(e) => e == StakeError::NotOwner && signer_id != old(self)@.owner_id
                    && *final(self) == *old(self),
            },
    {
        match self.assert_owner_signer(signer_id) {
            Ok(()) => {
                self.cookie_reward_rate = rate;
                Ok(())
            },
            Err(e) => Err(e),
        }
    }

    /// Set the fee percentage taken on stake intake and on reward claims,
    /// owner-gated; a non-owner changes nothing.
    pub fn set_bake_fee(&mut self, signer_id: u64, rate: u8) -> (r: Result<(), StakeError>)
        ensures
            match r {
                Ok(()) => signer_id == old(self)@.owner_id && final(self)@ == (ContractView {
                    fee_percent: rate,
                    ..old(self)@
                }),
                Err(e) => e == StakeError::NotOwner && signer_id != old(self)@.owner_id
                    && *final(self) == *old(self),
            },
    {
        match self.assert_owner_signer(signer_id) {
            Ok(()) => {
                self.fee_percent = rate;
                Ok(())
            },
            Err(e) => Err(e),
        }
    }
}

} // verus!
