//! Read accessors for the configuration rates and the stake records.
use crate::stake::Stake;
use crate::{Contract, StakeError};
use vstd::prelude::*;

verus! {

impl Contract {
    /// The configured reward rate.
    pub fn get_reward_rate(&self) -> (r: u8)
        ensures
            r == self@.cookie_reward_rate,
    {
        self.cookie_reward_rate
    }

    /// The configured fee percentage.
    pub fn get_fee_rate(&self) -> (r: u8)
        ensures
            r == self@.fee_percent,
    {
        self.fee_percent
    }

    /// The stake record of `id`; a missing record is a hard failure, not a
    /// zero default.
    pub fn get_stake_by_id(&self, id: u64) -> (r: Result<Stake, StakeError>)
        ensures
            match r {
                Ok(rec) => self@.stakes.contains_key(id) && rec == self@.stakes[id],
                Err(e) => e == StakeError::MissingStakeRecord && !self@.stakes.contains_key(id),
            },
    {
        match self.stake.get(&id) {
            Some(rec) => Ok(*rec),
            None => Err(StakeError::MissingStakeRecord),
        }
    }
}

} // verus!
