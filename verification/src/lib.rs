//! A token-staking engine: accounts lock a principal balance, accrue a
//! reward currency over time at a configurable percentage rate, and later
//! withdraw stake or claim rewards through two-phase (request/completion)
//! operations whose external round-trip is performed by the surrounding host.
//!
//! The engine itself is pure state and arithmetic: every entry point takes the
//! host-supplied context (signer, attached deposit, current time) as plain
//! values, decides, and either mutates the ledger or reports exactly why not.
use std::collections::HashMap;
use vstd::prelude::*;

pub mod accounts;
pub mod owner;
pub mod stake;
pub mod tokens;
pub mod view;

use crate::stake::Stake;
use crate::tokens::{TokenLedger, TokenView};

verus! {

broadcast use vstd::std_specs::hash::group_hash_axioms;

/// Every way an engine operation can refuse to act. A hard failure, which
/// on chain would abort and roll back a whole step, is surfaced as an error
/// value; an `Err` always leaves the state unchanged.
#[derive(Clone, Copy, PartialEq, Eq, Structural, Debug)]
pub enum StakeError {
    /// The attached deposit does not match what the operation demands.
    DepositMismatch,
    /// The attached deposit is below the required floor.
    InsufficientDeposit,
    /// The signer's token balance cannot cover the requested amount.
    InsufficientBalance,
    /// A stake below the minimum stake floor was requested.
    BelowMinimumStake,
    /// The account has no stake record; absence is not "zero stake".
    MissingStakeRecord,
    /// A reward, fee, balance or supply computation would leave the
    /// integer domain.
    ArithmeticOverflow,
    /// Minting would push the total supply past the supply cap.
    SupplyCapExceeded,
    /// A configuration change was attempted by a non-owner identity.
    NotOwner,
    /// A completion step was addressed to an account other than the signer.
    WrongAccount,
    /// A token-ledger operation named an unregistered account.
    AccountNotRegistered,
    /// An account was registered twice.
    AccountAlreadyRegistered,
}

/// The staking engine: the internal token ledger, the stake records, and
/// the owner-gated configuration. The host hands every entry point the call
/// context (signer, attached deposit, current time) as plain values.
pub struct Contract {
    pub token: TokenLedger,
    pub owner_id: u64,
    pub contract_id: u64,
    pub stake: HashMap<u64, Stake>,
    pub factory_id: u64,
    pub vault_id: u64,
    pub fee_percent: u8,
    pub cookie_reward_rate: u8,
}

/// The mathematical state of the engine.
#[verifier::ext_equal]
pub struct ContractView {
    pub token: TokenView,
    pub owner_id: u64,
    pub contract_id: u64,
    pub stakes: Map<u64, Stake>,
    pub factory_id: u64,
    pub vault_id: u64,
    pub fee_percent: u8,
    pub cookie_reward_rate: u8,
}

impl View for Contract {
    type V = ContractView;

    open spec fn view(&self) -> ContractView {
        ContractView {
            token: self.token@,
            owner_id: self.owner_id,
            contract_id: self.contract_id,
            stakes: self.stake@,
            factory_id: self.factory_id,
            vault_id: self.vault_id,
            fee_percent: self.fee_percent,
            cookie_reward_rate: self.cookie_reward_rate,
        }
    }
}

impl Contract {
    /// A fresh engine: empty stake ledger, zero supply, and the owner, vault,
    /// factory and (when distinct from the owner) the contract's own account
    /// registered with zero balances. The identities must be distinct, as
    /// registering an account twice aborts.
    pub fn new(
        owner_id: u64,
        vault_id: u64,
        factory_id: u64,
        fee_percent: u8,
        cookie_reward_rate: u8,
        contract_id: u64,
    ) -> (r: Contract)
        requires
            owner_id != vault_id,
            owner_id != factory_id,
            vault_id != factory_id,
            contract_id != vault_id,
            contract_id != factory_id,
        ensures
            r@.owner_id == owner_id,
            r@.contract_id == contract_id,
            r@.vault_id == vault_id,
            r@.factory_id == factory_id,
            r@.fee_percent == fee_percent,
            r@.cookie_reward_rate == cookie_reward_rate,
            r@.stakes == Map::<u64, Stake>::empty(),
            r@.token.total_supply == 0,
            r@.token.vault == vault_id,
            r@.token.balances == if contract_id == owner_id {
                Map::<u64, u128>::empty().insert(owner_id, 0).insert(vault_id, 0).insert(
                    factory_id,
                    0,
                )
            } else {
                Map::<u64, u128>::empty().insert(owner_id, 0).insert(vault_id, 0).insert(
                    factory_id,
                    0,
                ).insert(contract_id, 0)
            },
    {
        let mut token = TokenLedger::new(vault_id);
        token.internal_register_account(owner_id);
        token.internal_register_account(vault_id);
        token.internal_register_account(factory_id);
        if owner_id != contract_id {
            token.internal_register_account(contract_id);
        }
        Contract {
            token,
            owner_id,
            contract_id,
            stake: HashMap::new(),
            factory_id,
            vault_id,
            fee_percent,
            cookie_reward_rate,
        }
    }

    /// Refuse any account that is not the configured owner.
    pub fn assert_owner(&self, account_id: u64) -> (r: Result<(), StakeError>)
        ensures
            r == if account_id == self@.owner_id {
                Ok::<(), StakeError>(())
            } else {
                Err::<(), StakeError>(StakeError::NotOwner)
            },
    {
        if self.owner_id == account_id {
            Ok(())
        } else {
            Err(StakeError::NotOwner)
        }
    }

    /// Register a fresh account with the token ledger.
    pub fn register_account(&mut self, account_id: u64) -> (r: Result<(), StakeError>)
        ensures
            match r {
                Ok(()) => !old(self)@.token.registered(account_id) && final(self)@
                    == (ContractView {
                    token: TokenView {
                        balances: old(self)@.token.balances.insert(account_id, 0),
                        ..old(self)@.token
                    },
                    ..old(self)@
                }),
                Err(e) => e == StakeError::AccountAlreadyRegistered && old(
                    self,
                )@.token.registered(account_id) && *final(self) == *old(self),
            },
    {
        if self.token.is_registered(account_id) {
            return Err(StakeError::AccountAlreadyRegistered);
        }
        self.token.internal_register_account(account_id);
        Ok(())
    }

    /// Redirect the vault, owner-gated; the new vault account is registered
    /// and must be fresh.
    pub fn update_vault(&mut self, signer_id: u64, vault_id: u64) -> (r: Result<(), StakeError>)
        ensures
            match r {
                Ok(()) => {
                    &&& signer_id == old(self)@.owner_id
                    &&& !old(self)@.token.registered(vault_id)
                    &&& final(self)@ == (ContractView {
                        token: TokenView {
                            balances: old(self)@.token.balances.insert(vault_id, 0),
                            vault: vault_id,
                            ..old(self)@.token
                        },
                        ..old(self)@
                    })
                },
                Err(e) => {
                    &&& *final(self) == *old(self)
                    &&& (e == StakeError::NotOwner || e == StakeError::AccountAlreadyRegistered)
                    &&& (e == StakeError::NotOwner <==> signer_id != old(self)@.owner_id)
                    &&& (e == StakeError::AccountAlreadyRegistered <==> signer_id == old(
                        self,
                    )@.owner_id && old(self)@.token.registered(vault_id))
                },
            },
    {
        if self.owner_id != signer_id {
            return Err(StakeError::NotOwner);
        }
        if self.token.is_registered(vault_id) {
            return Err(StakeError::AccountAlreadyRegistered);
        }
        self.token.set_vault(vault_id);
        self.token.internal_register_account(vault_id);
        Ok(())
    }
}

} // verus!
