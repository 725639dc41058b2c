//! Account onboarding: a storage deposit is placed with the factory
//! collaborator, and on its success the account is registered with the
//! contract's own token ledger.
use crate::tokens::TokenView;
use crate::{Contract, ContractView, StakeError};
use vstd::prelude::*;

verus! {

/// The cost reserved for one account's storage registration.
pub const STORAGE_COST: u128 = 10000000000000000000000;

/// A collaborator's storage-balance summary.
#[derive(Clone, Copy, PartialEq, Eq, Structural, Debug)]
pub struct StorageBalance {
    /// Deposit held in total.
    pub total: u128,
    /// Deposit not locked for storage.
    pub available: u128,
}

/// The storage-deposit interface of the factory collaborator.
pub trait Factory {
    /// Place a storage deposit for `account_id`; responds with the
    /// collaborator's storage-balance summary.
    fn storage_deposit(
        &mut self,
        account_id: Option<u64>,
        registration_only: Option<bool>,
    ) -> StorageBalance;
}

/// The completion step the host invokes once the storage deposit stands.
pub trait NekoStakeCallBack {
    /// Completion of an account setup.
    fn setup_account_call_back(&mut self);
}

/// A validated account-setup request, ready for dispatch to the factory.
#[derive(Clone, Copy, PartialEq, Eq, Structural, Debug)]
pub struct StorageDepositRequest {
    /// The account to set up.
    pub account: u64,
}

impl Contract {
    /// Request phase of account setup: the attached deposit must exceed
    /// twice the storage cost; nothing local changes.
    pub fn setup_account(&self, signer_id: u64, attached_deposit: u128) -> (r: Result<
        StorageDepositRequest,
        StakeError,
    >)
        ensures
            match r {
                Ok(req) => attached_deposit > 2 * STORAGE_COST && req == (StorageDepositRequest {
                    account: signer_id,
                }),
                Err(e) => e == StakeError::InsufficientDeposit && attached_deposit <= 2
                    * STORAGE_COST,
            },
    {
        if attached_deposit <= 2 * STORAGE_COST {
            return Err(StakeError::InsufficientDeposit);
        }
        Ok(StorageDepositRequest { account: signer_id })
    }

    /// Completion of an account setup: register the signer with the token
    /// ledger; an already-registered signer is left as it is.
    pub fn setup_account_call_back(&mut self, signer_id: u64)
        ensures
            final(self)@ == (ContractView {
                token: TokenView {
                    balances: if old(self)@.token.registered(signer_id) {
                        old(self)@.token.balances
                    } else {
                        old(self)@.token.balances.insert(signer_id, 0)
                    },
                    ..old(self)@.token
                },
                ..old(self)@
            }),
    {
        self.token.storage_deposit(signer_id);
    }
}

} // verus!
