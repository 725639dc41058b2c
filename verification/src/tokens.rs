//! The contract's internal fungible-token ledger: per-account balances and
//! the total supply, with the primitive operations the staking engine needs
//! (register, deposit/mint, withdraw/burn, transfer, balance queries).
//!
//! Each primitive is total over its stated precondition and never applies
//! partially; the preconditions exclude exactly the inputs on which the
//! ledger aborts (unregistered account, insufficient balance, balance or
//! supply leaving the integer domain).
use crate::{Contract, StakeError};
use std::collections::HashMap;
use vstd::prelude::*;

verus! {

broadcast use vstd::std_specs::hash::group_hash_axioms;

/// The supply cap for minting: the full range of the balance type.
pub const MAX_SUPPLY: u128 = u128::MAX;

/// Balance storage for the staked currency.
pub struct TokenLedger {
    pub accounts: HashMap<u64, u128>,
    pub total_supply: u128,
    pub vault: u64,
}

/// The mathematical state of a `TokenLedger`: which accounts are registered,
/// what each holds, how much exists in total, and the vault identity.
#[verifier::ext_equal]
pub struct TokenView {
    pub balances: Map<u64, u128>,
    pub total_supply: u128,
    pub vault: u64,
}

impl TokenView {
    /// An account is registered when it has a balance entry, even one of zero.
    pub open spec fn registered(self, account: u64) -> bool {
        self.balances.contains_key(account)
    }

    /// The balance of an account; an unregistered account reads as zero.
    pub open spec fn balance(self, account: u64) -> u128 {
        if self.registered(account) {
            self.balances[account]
        } else {
            0
        }
    }
}

/// The balances after moving `amount` from `from` to `to`; the total supply
/// is untouched. Moving within one account leaves every balance as it was.
pub open spec fn transfer_result(t: TokenView, from: u64, to: u64, amount: u128) -> TokenView {
    let mid = t.balances.insert(from, (t.balances[from] - amount) as u128);
    TokenView { balances: mid.insert(to, (mid[to] + amount) as u128), ..t }
}

/// The ledger after minting `amount` for `account`: balance and supply grow
/// together.
pub open spec fn deposit_result(t: TokenView, account: u64, amount: u128) -> TokenView {
    TokenView {
        balances: t.balances.insert(account, (t.balance(account) + amount) as u128),
        total_supply: (t.total_supply + amount) as u128,
        ..t
    }
}

/// The ledger after burning `amount` from `account`: balance and supply
/// shrink together.
pub open spec fn withdraw_result(t: TokenView, account: u64, amount: u128) -> TokenView {
    TokenView {
        balances: t.balances.insert(account, (t.balance(account) - amount) as u128),
        total_supply: (t.total_supply - amount) as u128,
        ..t
    }
}

impl View for TokenLedger {
    type V = TokenView;

    open spec fn view(&self) -> TokenView {
        TokenView {
            balances: self.accounts@,
            total_supply: self.total_supply,
            vault: self.vault,
        }
    }
}

impl TokenLedger {
    /// An empty ledger: no registered accounts, no supply.
    pub fn new(vault: u64) -> (r: TokenLedger)
        ensures
            r@.balances == Map::<u64, u128>::empty(),
            r@.total_supply == 0,
            r@.vault == vault,
    {
        TokenLedger { accounts: HashMap::new(), total_supply: 0, vault }
    }

    /// Whether `account` has a balance entry.
    pub fn is_registered(&self, account: u64) -> (r: bool)
        ensures
            r == self@.registered(account),
    {
        self.accounts.contains_key(&account)
    }

    /// The account's balance; zero when it is not registered.
    pub fn ft_balance_of(&self, account: u64) -> (r: u128)
        ensures
            r == self@.balance(account),
    {
        match self.accounts.get(&account) {
            Some(b) => *b,
            None => 0,
        }
    }

    /// The total minted supply.
    pub fn total_supply(&self) -> (r: u128)
        ensures
            r == self@.total_supply,
    {
        self.total_supply
    }

    /// The vault identity.
    pub fn vault(&self) -> (r: u64)
        ensures
            r == self@.vault,
    {
        self.vault
    }

    /// Redirect the vault to another account.
    pub fn set_vault(&mut self, vault: u64)
        ensures
            final(self)@ == (TokenView { vault, ..old(self)@ }),
    {
        self.vault = vault;
    }

    /// Give `account` a balance entry of zero. Registering an account twice
    /// is an abort, so a fresh account is required.
    pub fn internal_register_account(&mut self, account: u64)
        requires
            !old(self)@.registered(account),
        ensures
            final(self)@ == (TokenView {
                balances: old(self)@.balances.insert(account, 0),
                ..old(self)@
            }),
    {
        self.accounts.insert(account, 0);
    }

    /// Register `account` unless it already is; the storage-deposit entry
    /// point tolerates repetition.
    pub fn storage_deposit(&mut self, account: u64)
        ensures
            final(self)@ == (TokenView {
                balances: if old(self)@.registered(account) {
                    old(self)@.balances
                } else {
                    old(self)@.balances.insert(account, 0)
                },
                ..old(self)@
            }),
    {
        if !self.accounts.contains_key(&account) {
            self.accounts.insert(account, 0);
        }
    }

    /// Mint: add `amount` to the account's balance and to the total supply.
    pub fn internal_deposit(&mut self, account: u64, amount: u128)
        requires
            old(self)@.registered(account),
            old(self)@.balance(account) + amount <= u128::MAX,
            old(self)@.total_supply + amount <= u128::MAX,
        ensures
            final(self)@ == deposit_result(old(self)@, account, amount),
    {
        let balance = self.ft_balance_of(account);
        self.accounts.insert(account, balance + amount);
        self.total_supply = self.total_supply + amount;
    }

    /// Burn: remove `amount` from the account's balance and from the total
    /// supply.
    pub fn internal_withdraw(&mut self, account: u64, amount: u128)
        requires
            old(self)@.registered(account),
            old(self)@.balance(account) >= amount,
            old(self)@.total_supply >= amount,
        ensures
            final(self)@ == withdraw_result(old(self)@, account, amount),
    {
        let balance = self.ft_balance_of(account);
        self.accounts.insert(account, balance - amount);
        self.total_supply = self.total_supply - amount;
    }

    /// Move `amount` between two registered accounts; the supply is
    /// unchanged, and the move is all-or-nothing.
    pub fn internal_transfer(&mut self, from: u64, to: u64, amount: u128)
        requires
            old(self)@.registered(from),
            old(self)@.registered(to),
            old(self)@.balance(from) >= amount,
            from != to ==> old(self)@.balance(to) + amount <= u128::MAX,
        ensures
            final(self)@ == transfer_result(old(self)@, from, to, amount),
    {
        let from_balance = self.ft_balance_of(from);
        self.accounts.insert(from, from_balance - amount);
        let to_balance = self.ft_balance_of(to);
        self.accounts.insert(to, to_balance + amount);
    }
}

impl Contract {
    /// Mint `amount` for `to`, registering the account first when it has no
    /// entry. Refused when the supply cap or the balance range would be
    /// passed, with nothing changed.
    pub fn ft_mint(&mut self, to: u64, amount: u128) -> (r: Result<(), StakeError>)
        ensures
            match r {
                Ok(()) => {
                    &&& old(self)@.token.total_supply + amount <= MAX_SUPPLY
                    &&& old(self)@.token.balance(to) + amount <= u128::MAX
                    &&& final(self)@ == (crate::ContractView {
                        token: TokenView {
                            balances: old(self)@.token.balances.insert(
                                to,
                                (old(self)@.token.balance(to) + amount) as u128,
                            ),
                            total_supply: (old(self)@.token.total_supply + amount) as u128,
                            ..old(self)@.token
                        },
                        ..old(self)@
                    })
                },
                Err(e) => {
                    &&& *final(self) == *old(self)
                    &&& (e == StakeError::SupplyCapExceeded || e == StakeError::ArithmeticOverflow)
                    &&& (e == StakeError::SupplyCapExceeded <==> old(self)@.token.total_supply
                        + amount > MAX_SUPPLY)
                    &&& (e == StakeError::ArithmeticOverflow <==> old(self)@.token.total_supply
                        + amount <= MAX_SUPPLY && old(self)@.token.balance(to) + amount
                        > u128::MAX)
                },
            },
    {
        self.ft_internal_mint(to, amount)
    }

    /// The body of minting, shared with initialization paths.
    pub fn ft_internal_mint(&mut self, to: u64, amount: u128) -> (r: Result<(), StakeError>)
        ensures
            match r {
                Ok(()) => {
                    &&& old(self)@.token.total_supply + amount <= MAX_SUPPLY
                    &&& old(self)@.token.balance(to) + amount <= u128::MAX
                    &&& final(self)@ == (crate::ContractView {
                        token: TokenView {
                            balances: old(self)@.token.balances.insert(
                                to,
                                (old(self)@.token.balance(to) + amount) as u128,
                            ),
                            total_supply: (old(self)@.token.total_supply + amount) as u128,
                            ..old(self)@.token
                        },
                        ..old(self)@
                    })
                },
                Err(e) => {
                    &&& *final(self) == *old(self)
                    &&& (e == StakeError::SupplyCapExceeded || e == StakeError::ArithmeticOverflow)
                    &&& (e == StakeError::SupplyCapExceeded <==> old(self)@.token.total_supply
                        + amount > MAX_SUPPLY)
                    &&& (e == StakeError::ArithmeticOverflow <==> old(self)@.token.total_supply
                        + amount <= MAX_SUPPLY && old(self)@.token.balance(to) + amount
                        > u128::MAX)
                },
            },
    {
        if amount > MAX_SUPPLY - self.token.total_supply() {
            return Err(StakeError::SupplyCapExceeded);
        }
        let balance = self.token.ft_balance_of(to);
        if balance > u128::MAX - amount {
            return Err(StakeError::ArithmeticOverflow);
        }
        if !self.token.is_registered(to) {
            self.token.internal_register_account(to);
        }
        self.token.internal_deposit(to, amount);
        Ok(())
    }
}

} // verus!
