//! The stake record and the reward-accrual calculator.
//!
//! A record tracks an account's locked principal, its accrued but unclaimed
//! reward, and the time of its last settlement. Accrual is proportional to
//! whole elapsed minutes: partial minutes earn nothing until a full minute
//! has passed since the last settlement.
use crate::tokens::{deposit_result, transfer_result, withdraw_result, TokenView};
use crate::{Contract, ContractView, StakeError};
use vstd::arithmetic::div_mod::{
    lemma_basic_div, lemma_div_is_ordered, lemma_div_plus_one, lemma_div_pos_is_pos,
};
use vstd::arithmetic::mul::lemma_mul_nonnegative;
use vstd::prelude::*;

verus! {

/// Nanoseconds in one minute: the granularity of reward accrual.
pub const NANOS_PER_MINUTE: u64 = 60_000_000_000;

/// Per-account stake record.
#[derive(Clone, Copy, PartialEq, Eq, Structural, Debug)]
pub struct Stake {
    /// Principal currently locked; modified only by increase/decrease.
    pub total_stake: u128,
    /// Reward accrued but not yet claimed.
    pub acc_reward: u128,
    /// Timestamp (nanoseconds) of the last accrual settlement.
    pub last_update_time: u64,
}

/// Whole minutes elapsed between `last` and `now`, truncating.
pub open spec fn minutes_between(last: u64, now: u64) -> int
    recommends
        last <= now,
{
    (now - last) / (NANOS_PER_MINUTE as int)
}

/// Reward earned per elapsed minute: `floor(total * rate / 100)`.
pub open spec fn rate_share(total: u128, rate: u128) -> int {
    (total * rate) / 100
}

/// Reward accrued by `s` from its last settlement up to `now`.
pub open spec fn accrued_reward(s: Stake, rate: u128, now: u64) -> int {
    rate_share(s.total_stake, rate) * minutes_between(s.last_update_time, now)
}

/// The accrual computation stays inside the `u128` domain.
pub open spec fn reward_fits(s: Stake, rate: u128, now: u64) -> bool {
    &&& s.total_stake * rate <= u128::MAX
    &&& rate_share(s.total_stake, rate) * minutes_between(s.last_update_time, now) <= u128::MAX
}

/// The write-back that every increase/decrease performs first: add the
/// accrued reward and advance the settlement timestamp, unconditionally.
pub open spec fn settled_record(s: Stake, rate: u128, now: u64) -> Stake {
    Stake {
        total_stake: s.total_stake,
        acc_reward: (s.acc_reward + accrued_reward(s, rate, now)) as u128,
        last_update_time: now,
    }
}

/// The settlement computation stays inside the `u128` domain.
pub open spec fn settle_fits(s: Stake, rate: u128, now: u64) -> bool {
    &&& reward_fits(s, rate, now)
    &&& s.acc_reward + accrued_reward(s, rate, now) <= u128::MAX
}

/// What the standalone settlement entry point leaves behind: it writes back
/// only when the accrued reward is nonzero (a zero reward does not refresh
/// the timestamp).
pub open spec fn settle_result(s: Stake, rate: u128, now: u64) -> Stake {
    if accrued_reward(s, rate, now) > 0 {
        settled_record(s, rate, now)
    } else {
        s
    }
}

/// A principal increase: settle first, then add `amount` to the principal.
pub open spec fn increase_result(s: Stake, rate: u128, amount: u128, now: u64) -> Stake {
    Stake {
        total_stake: (s.total_stake + amount) as u128,
        ..settled_record(s, rate, now)
    }
}

/// A principal decrease: settle first, then subtract `amount`; callers
/// clamp `amount` to the current principal.
pub open spec fn decrease_result(s: Stake, rate: u128, amount: u128, now: u64) -> Stake {
    Stake {
        total_stake: (s.total_stake - amount) as u128,
        ..settled_record(s, rate, now)
    }
}

/// The accrued reward is never negative.
pub proof fn lemma_accrued_reward_nonnegative(s: Stake, rate: u128, now: u64)
    requires
        s.last_update_time <= now,
    ensures
        accrued_reward(s, rate, now) >= 0,
{
    lemma_mul_nonnegative(s.total_stake as int, rate as int);
    lemma_div_pos_is_pos(s.total_stake * rate, 100);
    lemma_div_pos_is_pos(now - s.last_update_time, NANOS_PER_MINUTE as int);
    lemma_mul_nonnegative(
        rate_share(s.total_stake, rate),
        minutes_between(s.last_update_time, now),
    );
}

/// Settlement never lowers the accrued reward: with no claim in between,
/// `acc_reward` is non-decreasing over time.
pub proof fn lemma_settle_monotonic(s: Stake, rate: u128, now: u64)
    requires
        s.last_update_time <= now,
        settle_fits(s, rate, now),
    ensures
        settle_result(s, rate, now).acc_reward >= s.acc_reward,
        settle_result(s, rate, now).total_stake == s.total_stake,
{
    lemma_accrued_reward_nonnegative(s, rate, now);
}

/// Chained settlements at non-decreasing times never lower the accrued
/// reward either: accrual is monotone over any settlement schedule.
pub proof fn lemma_settle_monotonic_chain(s: Stake, rate: u128, now1: u64, now2: u64)
    requires
        s.last_update_time <= now1 <= now2,
        settle_fits(s, rate, now1),
        settle_fits(settle_result(s, rate, now1), rate, now2),
    ensures
        settle_result(settle_result(s, rate, now1), rate, now2).acc_reward >= settle_result(
            s,
            rate,
            now1,
        ).acc_reward >= s.acc_reward,
{
    lemma_settle_monotonic(s, rate, now1);
    lemma_settle_monotonic(settle_result(s, rate, now1), rate, now2);
}

/// Two settlements within the same elapsed-minute window leave the record
/// exactly as one settlement does.
pub proof fn lemma_settle_idempotent(s: Stake, rate: u128, now1: u64, now2: u64)
    requires
        s.last_update_time <= now1 <= now2,
        minutes_between(s.last_update_time, now2) == minutes_between(s.last_update_time, now1),
        settle_fits(s, rate, now1),
    ensures
        settle_result(settle_result(s, rate, now1), rate, now2) == settle_result(s, rate, now1),
{
    let w = NANOS_PER_MINUTE as int;
    let last = s.last_update_time as int;
    // The two observation points lie less than one minute apart: otherwise
    // their minute counts from `last` would differ.
    assert(now2 - now1 < w) by {
        if now2 - now1 >= w {
            lemma_div_plus_one(now1 - last, w);
            lemma_div_is_ordered(w + (now1 - last), now2 - last, w);
        }
    }
    lemma_basic_div(now2 - now1, w);
    lemma_accrued_reward_nonnegative(s, rate, now1);
    let once = settle_result(s, rate, now1);
    if accrued_reward(s, rate, now1) > 0 {
        // The first settlement advanced the timestamp to `now1`; less than a
        // minute later the accrued reward is zero, so nothing is written.
        assert(minutes_between(once.last_update_time, now2) == 0);
        assert(accrued_reward(once, rate, now2) == 0) by {
            assert(rate_share(once.total_stake, rate) * 0 == 0) by (nonlinear_arith);
        }
    } else {
        // Nothing was written: the minute count at `now2` equals the one at
        // `now1`, so the reward is the same product, still zero.
        assert(accrued_reward(s, rate, now2) == accrued_reward(s, rate, now1));
    }
}

/// An increase by `x` followed by a decrease by `x` with no time elapsed
/// restores the principal exactly; the accrued reward moves only by the
/// settlement that the increase itself performed.
pub proof fn lemma_increase_decrease_round_trip(s: Stake, rate: u128, x: u128, now: u64)
    requires
        s.last_update_time <= now,
        settle_fits(s, rate, now),
        s.total_stake + x <= u128::MAX,
    ensures
        ({
            let up = increase_result(s, rate, x, now);
            let down = decrease_result(up, rate, x, now);
            &&& down.total_stake == s.total_stake
            &&& down.acc_reward == s.acc_reward + accrued_reward(s, rate, now)
            &&& down.last_update_time == now
        }),
{
    let up = increase_result(s, rate, x, now);
    assert(minutes_between(up.last_update_time, now) == 0) by {
        lemma_basic_div(0, NANOS_PER_MINUTE as int);
    }
    assert(accrued_reward(up, rate, now) == 0) by {
        assert(rate_share(up.total_stake, rate) * 0 == 0) by (nonlinear_arith);
    }
}

/// A decrease clamped to the current principal never drives it below zero:
/// the subtraction stays in the unsigned domain, whatever was requested.
pub proof fn lemma_clamped_decrease_non_negative(s: Stake, rate: u128, requested: u128, now: u64)
    requires
        s.last_update_time <= now,
        settle_fits(s, rate, now),
    ensures
        ({
            let amount = if requested <= s.total_stake {
                requested
            } else {
                s.total_stake
            };
            let down = decrease_result(s, rate, amount, now);
            &&& down.total_stake >= 0
            &&& down.total_stake == s.total_stake - amount
        }),
{
}

impl Stake {
    /// Reward accrued since `last_update_time` up to `now`, or an
    /// arithmetic error when a product would overflow. Does not mutate
    /// the record: callers write back the settled values themselves.
    pub fn cal_reward(&self, reward_rate: u128, now: u64) -> (r: Result<u128, StakeError>)
        requires
            self.last_update_time <= now,
        ensures
            match r {
                Ok(v) => reward_fits(*self, reward_rate, now) && v == accrued_reward(
                    *self,
                    reward_rate,
                    now,
                ),
                Err(e) => e == StakeError::ArithmeticOverflow && !reward_fits(
                    *self,
                    reward_rate,
                    now,
                ),
            },
    {
        let time_diff: u128 = (now - self.last_update_time) as u128;
        let time_since_last_update_in_min: u128 = time_diff / (NANOS_PER_MINUTE as u128);
        let reward_mul: u128 = match self.total_stake.checked_mul(reward_rate) {
            Some(v) => v,
            None => {
                return Err(StakeError::ArithmeticOverflow);
            },
        };
        let reward_per_mins: u128 = reward_mul / 100;
        match reward_per_mins.checked_mul(time_since_last_update_in_min) {
            Some(reward_add) => Ok(reward_add),
            None => Err(StakeError::ArithmeticOverflow),
        }
    }
}

/// The interface of the external settlement collaborator (fee-aware stake
/// intake, reward transfer, currency exchange). The engine only describes
/// the requests; the host dispatches them and routes the responses back.
pub trait Factory {
    /// Reserve `amount` for `to` and apply `fee`; responds with the
    /// confirmed post-fee amount.
    fn checked_bake(&mut self, to: u64, amount: u128, fee: u128);

    /// Transfer `amount` of the reward currency to `receiver_id`.
    fn ft_transfer(&mut self, receiver_id: u64, amount: u128, memo: Option<String>);

    /// Convert an internal `amount` into the reward currency; responds with
    /// the confirmed exchange amount.
    fn checked_exchange(&mut self, amount: u128) -> u128;
}

/// The completion steps the host invokes on the engine's behalf once the
/// corresponding external round-trip has succeeded.
pub trait NekoStakeCallBack {
    /// Completion of a stake request.
    fn neko_stake_call_back(&mut self, to: u64, amount: u128, fee: u128);

    /// Completion of a reward claim.
    fn claim_reward_call_back(&mut self);

    /// Completion of an unstake exchange.
    fn cookie_exchange_call_back(&mut self);
}

/// Minimum principal a stake request must bring.
pub const MIN_STAKE: u128 = 100;

/// The smallest attachable deposit unit; call-confirmation deposits are
/// measured in it.
pub const ONE_YOCTO: u128 = 1;

/// A validated stake request, ready for dispatch to the settlement
/// collaborator, with the completion arguments it must carry back.
#[derive(Clone, Copy, PartialEq, Eq, Structural, Debug)]
pub struct StakeRequest {
    /// The account staking.
    pub account: u64,
    /// The gross amount being staked.
    pub amount: u128,
    /// The principal after the fee was taken.
    pub amount_after_fee: u128,
    /// The fee taken from the principal.
    pub fee: u128,
}

/// A validated claim request: transfer the post-fee reward externally, then
/// complete by zeroing the claimed reward.
#[derive(Clone, Copy, PartialEq, Eq, Structural, Debug)]
pub struct ClaimRequest {
    /// The account claiming.
    pub account: u64,
    /// The reward to transfer, after the claim fee was taken.
    pub reward_after_fee: u128,
}

/// A validated unstake request: exchange `amount` externally, then complete
/// with the confirmed exchange amount.
#[derive(Clone, Copy, PartialEq, Eq, Structural, Debug)]
pub struct ExchangeRequest {
    /// The internal amount to exchange.
    pub amount: u128,
}

/// The fee policy: `floor(amount * percent / 100)`.
pub open spec fn spec_fee(amount: u128, percent: u8) -> int {
    (amount * percent) / 100
}

impl Contract {
    /// Request phase of staking: validate the deposit, the signer's balance
    /// and the minimum stake, compute the fee, and describe the external
    /// dispatch. Nothing local changes; on a validation error nothing is
    /// dispatched.
    pub fn stake(&self, signer_id: u64, amount: u128, attached_deposit: u128) -> (r: Result<
        StakeRequest,
        StakeError,
    >)
        ensures
            match r {
                Ok(req) => {
                    &&& attached_deposit == 2 * ONE_YOCTO
                    &&& amount <= self@.token.balance(signer_id)
                    &&& amount >= MIN_STAKE
                    &&& amount * self@.fee_percent <= u128::MAX
                    &&& spec_fee(amount, self@.fee_percent) <= amount
                    &&& req == (StakeRequest {
                        account: signer_id,
                        amount,
                        amount_after_fee: (amount - spec_fee(amount, self@.fee_percent)) as u128,
                        fee: spec_fee(amount, self@.fee_percent) as u128,
                    })
                },
                Err(e) => {
                    &&& (e == StakeError::DepositMismatch || e == StakeError::InsufficientBalance
                        || e == StakeError::BelowMinimumStake || e == StakeError::ArithmeticOverflow)
                    &&& (e == StakeError::DepositMismatch <==> attached_deposit != 2 * ONE_YOCTO)
                    &&& (e == StakeError::InsufficientBalance <==> attached_deposit == 2
                        * ONE_YOCTO && amount > self@.token.balance(signer_id))
                    &&& (e == StakeError::BelowMinimumStake <==> attached_deposit == 2 * ONE_YOCTO
                        && amount <= self@.token.balance(signer_id) && amount < MIN_STAKE)
                    &&& (e == StakeError::ArithmeticOverflow <==> attached_deposit == 2 * ONE_YOCTO
                        && amount <= self@.token.balance(signer_id) && amount >= MIN_STAKE && (
                    amount * self@.fee_percent > u128::MAX || spec_fee(amount, self@.fee_percent)
                        > amount))
                },
            },
    {
        if attached_deposit != 2 * ONE_YOCTO {
            return Err(StakeError::DepositMismatch);
        }
        if amount > self.token.ft_balance_of(signer_id) {
            return Err(StakeError::InsufficientBalance);
        }
        if amount < MIN_STAKE {
            return Err(StakeError::BelowMinimumStake);
        }
        let fee_mul = match amount.checked_mul(self.fee_percent as u128) {
            Some(v) => v,
            None => {
                return Err(StakeError::ArithmeticOverflow);
            },
        };
        let fee = fee_mul / 100;
        let amount_after_fee = match amount.checked_sub(fee) {
            Some(v) => v,
            None => {
                return Err(StakeError::ArithmeticOverflow);
            },
        };
        Ok(StakeRequest { account: signer_id, amount, amount_after_fee, fee })
    }

    /// Request phase of a reward claim: read the accrued reward as of now,
    /// take the claim fee, and describe the external transfer. The claimable
    /// amount is a snapshot; completion later zeroes whatever has accrued.
    pub fn claim_cookie(&self, signer_id: u64, attached_deposit: u128) -> (r: Result<
        ClaimRequest,
        StakeError,
    >)
        ensures
            match r {
                Ok(req) => {
                    &&& attached_deposit == ONE_YOCTO
                    &&& self@.stakes.contains_key(signer_id)
                    &&& self@.stakes[signer_id].acc_reward * self@.fee_percent <= u128::MAX
                    &&& spec_fee(self@.stakes[signer_id].acc_reward, self@.fee_percent)
                        <= self@.stakes[signer_id].acc_reward
                    &&& req == (ClaimRequest {
                        account: signer_id,
                        reward_after_fee: (self@.stakes[signer_id].acc_reward - spec_fee(
                            self@.stakes[signer_id].acc_reward,
                            self@.fee_percent,
                        )) as u128,
                    })
                },
                Err(e) => {
                    &&& (e == StakeError::DepositMismatch || e == StakeError::MissingStakeRecord
                        || e == StakeError::ArithmeticOverflow)
                    &&& (e == StakeError::DepositMismatch <==> attached_deposit != ONE_YOCTO)
                    &&& (e == StakeError::MissingStakeRecord <==> attached_deposit == ONE_YOCTO
                        && !self@.stakes.contains_key(signer_id))
                    &&& (e == StakeError::ArithmeticOverflow <==> attached_deposit == ONE_YOCTO
                        && self@.stakes.contains_key(signer_id) && (self@.stakes[signer_id].acc_reward
                        * self@.fee_percent > u128::MAX || spec_fee(
                        self@.stakes[signer_id].acc_reward,
                        self@.fee_percent,
                    ) > self@.stakes[signer_id].acc_reward))
                },
            },
    {
        if attached_deposit != ONE_YOCTO {
            return Err(StakeError::DepositMismatch);
        }
        let reward_before_fee = match self.stake.get(&signer_id) {
            Some(rec) => rec.acc_reward,
            None => {
                return Err(StakeError::MissingStakeRecord);
            },
        };
        let total_fee_mul = match reward_before_fee.checked_mul(self.fee_percent as u128) {
            Some(v) => v,
            None => {
                return Err(StakeError::ArithmeticOverflow);
            },
        };
        let total_fee = total_fee_mul / 100;
        let reward_after_fee = match reward_before_fee.checked_sub(total_fee) {
            Some(v) => v,
            None => {
                return Err(StakeError::ArithmeticOverflow);
            },
        };
        Ok(ClaimRequest { account: signer_id, reward_after_fee })
    }

    /// Request phase of unstaking: describe the external exchange. The
    /// engine does not pre-validate sufficiency; the collaborator does.
    pub fn unstake(&self, amount: u128, attached_deposit: u128) -> (r: Result<
        ExchangeRequest,
        StakeError,
    >)
        ensures
            match r {
                Ok(req) => attached_deposit == ONE_YOCTO && req == (ExchangeRequest { amount }),
                Err(e) => e == StakeError::DepositMismatch && attached_deposit != ONE_YOCTO,
            },
    {
        if attached_deposit != ONE_YOCTO {
            return Err(StakeError::DepositMismatch);
        }
        Ok(ExchangeRequest { amount })
    }
}

/// The reward rate in the engine's configuration, widened for arithmetic.
pub open spec fn spec_rate(c: ContractView) -> u128 {
    c.cookie_reward_rate as u128
}

/// What a principal increase leaves for `account`: the settled record
/// grown by `amount`, or a fresh record when none exists yet.
pub open spec fn increase_outcome(c: ContractView, account: u64, amount: u128, now: u64) -> Stake {
    if c.stakes.contains_key(account) {
        increase_result(c.stakes[account], spec_rate(c), amount, now)
    } else {
        Stake { total_stake: amount, acc_reward: 0, last_update_time: now }
    }
}

/// Why a stake completion is refused, checked in order, or `None` when it
/// goes through. The gross amount must move from the signer to the
/// contract; the fee must then burn from the contract's holding; and an
/// existing record must settle and grow within the integer domain.
pub open spec fn stake_callback_check(
    c: ContractView,
    signer: u64,
    to: u64,
    amount: u128,
    fee: u128,
    val: u128,
    now: u64,
) -> Option<StakeError> {
    let t = c.token;
    if to != signer {
        Some(StakeError::WrongAccount)
    } else if !t.registered(signer) || !t.registered(c.contract_id) {
        Some(StakeError::AccountNotRegistered)
    } else if t.balance(signer) < amount {
        Some(StakeError::InsufficientBalance)
    } else if signer != c.contract_id && t.balance(c.contract_id) + amount > u128::MAX {
        Some(StakeError::ArithmeticOverflow)
    } else if transfer_result(t, signer, c.contract_id, amount).balance(c.contract_id) < fee {
        Some(StakeError::InsufficientBalance)
    } else if t.total_supply < fee {
        Some(StakeError::ArithmeticOverflow)
    } else if c.stakes.contains_key(signer) && !(settle_fits(c.stakes[signer], spec_rate(c), now)
        && c.stakes[signer].total_stake + val <= u128::MAX) {
        Some(StakeError::ArithmeticOverflow)
    } else {
        None
    }
}

/// Why an unstake completion is refused, checked in order, or `None`. The
/// contract mints any shortfall before paying out, so only registration,
/// the receiving balance and the settlement arithmetic can refuse.
pub open spec fn exchange_callback_check(
    c: ContractView,
    signer: u64,
    exchange_amount: u128,
    now: u64,
) -> Option<StakeError> {
    let t = c.token;
    let shortfall = if t.balance(c.contract_id) < exchange_amount {
        (exchange_amount - t.balance(c.contract_id)) as u128
    } else {
        0
    };
    if c.stakes.contains_key(signer) && !settle_fits(c.stakes[signer], spec_rate(c), now) {
        Some(StakeError::ArithmeticOverflow)
    } else if !t.registered(c.contract_id) || !t.registered(signer) {
        Some(StakeError::AccountNotRegistered)
    } else if t.total_supply + shortfall > u128::MAX {
        Some(StakeError::ArithmeticOverflow)
    } else if signer != c.contract_id && t.balance(signer) + exchange_amount > u128::MAX {
        Some(StakeError::ArithmeticOverflow)
    } else {
        None
    }
}

/// The stake ledger an unstake completion leaves: the signer's record,
/// where one exists, settles and shrinks by the confirmed amount clamped to
/// its principal; without a record the payout leaves the ledger alone.
pub open spec fn exchange_callback_stakes(
    c: ContractView,
    signer: u64,
    exchange_amount: u128,
    now: u64,
) -> Map<u64, Stake> {
    if c.stakes.contains_key(signer) {
        let rec = c.stakes[signer];
        let clamped = if exchange_amount <= rec.total_stake {
            exchange_amount
        } else {
            rec.total_stake
        };
        c.stakes.insert(signer, decrease_result(rec, spec_rate(c), clamped, now))
    } else {
        c.stakes
    }
}

/// The token ledger an unstake completion leaves: the shortfall, if any,
/// minted into the contract's holding, and the confirmed amount paid out to
/// the signer.
pub open spec fn exchange_callback_token(
    c: ContractView,
    signer: u64,
    exchange_amount: u128,
) -> TokenView {
    let t = c.token;
    let topped = if t.balance(c.contract_id) < exchange_amount {
        deposit_result(t, c.contract_id, (exchange_amount - t.balance(c.contract_id)) as u128)
    } else {
        t
    };
    transfer_result(topped, c.contract_id, signer, exchange_amount)
}

impl Contract {
    /// Settle the pending reward of an existing record up to `now`. A zero
    /// reward writes nothing back (the timestamp is not refreshed); a
    /// missing record is a hard failure with nothing mutated.
    pub fn update_stake_data(&mut self, account_id: u64, now: u64) -> (r: Result<(), StakeError>)
        requires
            old(self)@.stakes.contains_key(account_id) ==> old(
                self,
            )@.stakes[account_id].last_update_time <= now,
        ensures
            match r {
                Ok(()) => {
                    &&& old(self)@.stakes.contains_key(account_id)
                    &&& settle_fits(old(self)@.stakes[account_id], spec_rate(old(self)@), now)
                    &&& final(self)@ == (ContractView {
                        stakes: old(self)@.stakes.insert(
                            account_id,
                            settle_result(
                                old(self)@.stakes[account_id],
                                spec_rate(old(self)@),
                                now,
                            ),
                        ),
                        ..old(self)@
                    })
                },
                Err(e) => {
                    &&& *final(self) == *old(self)
                    &&& (e == StakeError::MissingStakeRecord || e == StakeError::ArithmeticOverflow)
                    &&& (e == StakeError::MissingStakeRecord <==> !old(self)@.stakes.contains_key(
                        account_id,
                    ))
                    &&& (e == StakeError::ArithmeticOverflow <==> old(self)@.stakes.contains_key(
                        account_id,
                    ) && !settle_fits(old(self)@.stakes[account_id], spec_rate(old(self)@), now))
                },
            },
    {
        let stake_data = match self.stake.get(&account_id) {
            Some(rec) => *rec,
            None => {
                return Err(StakeError::MissingStakeRecord);
            },
        };
        let reward_add = match stake_data.cal_reward(self.cookie_reward_rate as u128, now) {
            Ok(v) => v,
            Err(e) => {
                return Err(e);
            },
        };
        if reward_add > 0 {
            let acc_reward = match stake_data.acc_reward.checked_add(reward_add) {
                Some(v) => v,
                None => {
                    return Err(StakeError::ArithmeticOverflow);
                },
            };
            let updated = Stake {
                total_stake: stake_data.total_stake,
                acc_reward,
                last_update_time: now,
            };
            self.stake.insert(account_id, updated);
            proof {
                assert(self@ =~= (ContractView {
                    stakes: old(self)@.stakes.insert(
                        account_id,
                        settle_result(old(self)@.stakes[account_id], spec_rate(old(self)@), now),
                    ),
                    ..old(self)@
                }));
            }
            Ok(())
        } else {
            proof {
                assert(old(self)@.stakes.insert(account_id, stake_data) =~= old(self)@.stakes);
                assert(self@ =~= (ContractView {
                    stakes: old(self)@.stakes.insert(
                        account_id,
                        settle_result(old(self)@.stakes[account_id], spec_rate(old(self)@), now),
                    ),
                    ..old(self)@
                }));
            }
            Ok(())
        }
    }

    /// Settle, then add `amount` to the principal; the timestamp is always
    /// refreshed here, even when the settled reward is zero. When no record
    /// exists yet, one is created with `amount` as its principal, no
    /// accrued reward, and `now` as its settlement time.
    pub fn update_stake_increase(&mut self, account_id: u64, amount: u128, now: u64) -> (r: Result<
        (),
        StakeError,
    >)
        requires
            old(self)@.stakes.contains_key(account_id) ==> old(
                self,
            )@.stakes[account_id].last_update_time <= now,
        ensures
            match r {
                Ok(()) => {
                    &&& old(self)@.stakes.contains_key(account_id) ==> (settle_fits(
                        old(self)@.stakes[account_id],
                        spec_rate(old(self)@),
                        now,
                    ) && old(self)@.stakes[account_id].total_stake + amount <= u128::MAX)
                    &&& final(self)@ == (ContractView {
                        stakes: old(self)@.stakes.insert(
                            account_id,
                            increase_outcome(old(self)@, account_id, amount, now),
                        ),
                        ..old(self)@
                    })
                },
                Err(e) => {
                    &&& *final(self) == *old(self)
                    &&& e == StakeError::ArithmeticOverflow
                    &&& old(self)@.stakes.contains_key(account_id)
                    &&& !(settle_fits(old(self)@.stakes[account_id], spec_rate(old(self)@), now)
                        && old(self)@.stakes[account_id].total_stake + amount <= u128::MAX)
                },
            },
    {
        let stake_data = match self.stake.get(&account_id) {
            Some(rec) => *rec,
            None => {
                let created = Stake { total_stake: amount, acc_reward: 0, last_update_time: now };
                self.stake.insert(account_id, created);
                return Ok(());
            },
        };
        let reward_add = match stake_data.cal_reward(self.cookie_reward_rate as u128, now) {
            Ok(v) => v,
            Err(e) => {
                return Err(e);
            },
        };
        let acc_reward = match stake_data.acc_reward.checked_add(reward_add) {
            Some(v) => v,
            None => {
                return Err(StakeError::ArithmeticOverflow);
            },
        };
        let total_stake = match stake_data.total_stake.checked_add(amount) {
            Some(v) => v,
            None => {
                return Err(StakeError::ArithmeticOverflow);
            },
        };
        let updated = Stake { total_stake, acc_reward, last_update_time: now };
        self.stake.insert(account_id, updated);
        Ok(())
    }

    /// Settle, then subtract `amount` from the principal; callers clamp
    /// `amount` to the current principal first. A missing record is
    /// tolerated as a no-op, asymmetric with settlement on purpose.
    pub fn update_stake_decrease(&mut self, account_id: u64, amount: u128, now: u64) -> (r: Result<
        (),
        StakeError,
    >)
        requires
            old(self)@.stakes.contains_key(account_id) ==> old(
                self,
            )@.stakes[account_id].last_update_time <= now && amount <= old(
                self,
            )@.stakes[account_id].total_stake,
        ensures
            match r {
                Ok(()) => if old(self)@.stakes.contains_key(account_id) {
                    settle_fits(old(self)@.stakes[account_id], spec_rate(old(self)@), now)
                        && final(self)@ == (ContractView {
                        stakes: old(self)@.stakes.insert(
                            account_id,
                            decrease_result(
                                old(self)@.stakes[account_id],
                                spec_rate(old(self)@),
                                amount,
                                now,
                            ),
                        ),
                        ..old(self)@
                    })
                } else {
                    *final(self) == *old(self)
                },
                Err(e) => {
                    &&& *final(self) == *old(self)
                    &&& e == StakeError::ArithmeticOverflow
                    &&& old(self)@.stakes.contains_key(account_id)
                    &&& !settle_fits(old(self)@.stakes[account_id], spec_rate(old(self)@), now)
                },
            },
    {
        let stake_data = match self.stake.get(&account_id) {
            Some(rec) => *rec,
            None => {
                return Ok(());
            },
        };
        let reward_add = match stake_data.cal_reward(self.cookie_reward_rate as u128, now) {
            Ok(v) => v,
            Err(e) => {
                return Err(e);
            },
        };
        let acc_reward = match stake_data.acc_reward.checked_add(reward_add) {
            Some(v) => v,
            None => {
                return Err(StakeError::ArithmeticOverflow);
            },
        };
        let updated = Stake {
            total_stake: stake_data.total_stake - amount,
            acc_reward,
            last_update_time: now,
        };
        self.stake.insert(account_id, updated);
        Ok(())
    }

    /// Completion of a reward claim: zero the accrued reward, whatever has
    /// accrued since the request was issued. A missing record is a hard
    /// failure with nothing mutated.
    pub fn claim_reward_call_back(&mut self, signer_id: u64) -> (r: Result<(), StakeError>)
        ensures
            match r {
                Ok(()) => {
                    &&& old(self)@.stakes.contains_key(signer_id)
                    &&& final(self)@ == (ContractView {
                        stakes: old(self)@.stakes.insert(
                            signer_id,
                            (Stake { acc_reward: 0, ..old(self)@.stakes[signer_id] }),
                        ),
                        ..old(self)@
                    })
                },
                Err(e) => {
                    &&& *final(self) == *old(self)
                    &&& e == StakeError::MissingStakeRecord
                    &&& !old(self)@.stakes.contains_key(signer_id)
                },
            },
    {
        let mut stake_data = match self.stake.get(&signer_id) {
            Some(rec) => *rec,
            None => {
                return Err(StakeError::MissingStakeRecord);
            },
        };
        stake_data.acc_reward = 0;
        self.stake.insert(signer_id, stake_data);
        Ok(())
    }

    /// Completion of a stake: verify the response is addressed to the
    /// signer, move the gross amount into the contract's holding, burn the
    /// fee, and record the confirmed post-fee amount — growing the signer's
    /// record, or creating it on first stake. Refusal leaves everything
    /// unchanged.
    pub fn neko_stake_call_back(
        &mut self,
        signer_id: u64,
        to: u64,
        amount: u128,
        fee: u128,
        val: u128,
        now: u64,
    ) -> (r: Result<(), StakeError>)
        requires
            old(self)@.stakes.contains_key(signer_id) ==> old(
                self,
            )@.stakes[signer_id].last_update_time <= now,
        ensures
            match r {
                Ok(()) => {
                    &&& stake_callback_check(old(self)@, signer_id, to, amount, fee, val, now)
                        is None
                    &&& final(self)@ == (ContractView {
                        token: withdraw_result(
                            transfer_result(
                                old(self)@.token,
                                signer_id,
                                old(self)@.contract_id,
                                amount,
                            ),
                            old(self)@.contract_id,
                            fee,
                        ),
                        stakes: old(self)@.stakes.insert(
                            signer_id,
                            increase_outcome(old(self)@, signer_id, val, now),
                        ),
                        ..old(self)@
                    })
                },
                Err(e) => {
                    &&& *final(self) == *old(self)
                    &&& stake_callback_check(old(self)@, signer_id, to, amount, fee, val, now)
                        == Some(e)
                },
            },
    {
        if to != signer_id {
            return Err(StakeError::WrongAccount);
        }
        let amount_after_fee = val;
        if !self.token.is_registered(signer_id) || !self.token.is_registered(self.contract_id) {
            return Err(StakeError::AccountNotRegistered);
        }
        if self.token.ft_balance_of(signer_id) < amount {
            return Err(StakeError::InsufficientBalance);
        }
        if signer_id != self.contract_id && self.token.ft_balance_of(self.contract_id)
            > u128::MAX - amount {
            return Err(StakeError::ArithmeticOverflow);
        }
        let holding_after = if signer_id != self.contract_id {
            self.token.ft_balance_of(self.contract_id) + amount
        } else {
            self.token.ft_balance_of(self.contract_id)
        };
        if holding_after < fee {
            return Err(StakeError::InsufficientBalance);
        }
        if self.token.total_supply() < fee {
            return Err(StakeError::ArithmeticOverflow);
        }
        // Update or create the signer's record before touching balances: a
        // refusal here leaves the whole state as it was.
        match self.update_stake_increase(signer_id, amount_after_fee, now) {
            Ok(()) => {},
            Err(e) => {
                return Err(e);
            },
        }
        self.token.internal_transfer(signer_id, self.contract_id, amount);
        self.token.internal_withdraw(self.contract_id, fee);
        Ok(())
    }

    /// Completion of an unstake: mint whatever shortfall the contract's
    /// holding has against the confirmed exchange amount, pay that amount
    /// out to the signer, and shrink the signer's record by the amount
    /// clamped to its principal — the principal never goes below zero. A
    /// signer without a record is paid without a ledger change. Refusal
    /// leaves everything unchanged.
    pub fn cookie_exchange_call_back(&mut self, signer_id: u64, exchange_amount: u128, now: u64) -> (r:
        Result<(), StakeError>)
        requires
            old(self)@.stakes.contains_key(signer_id) ==> old(
                self,
            )@.stakes[signer_id].last_update_time <= now,
        ensures
            match r {
                Ok(()) => {
                    &&& exchange_callback_check(old(self)@, signer_id, exchange_amount, now)
                        is None
                    &&& final(self)@ == (ContractView {
                        token: exchange_callback_token(old(self)@, signer_id, exchange_amount),
                        stakes: exchange_callback_stakes(old(self)@, signer_id, exchange_amount, now),
                        ..old(self)@
                    })
                },
                Err(e) => {
                    &&& *final(self) == *old(self)
                    &&& exchange_callback_check(old(self)@, signer_id, exchange_amount, now)
                        == Some(e)
                },
            },
    {
        let new_record = match self.stake.get(&signer_id) {
            Some(rec0) => {
                let rec = *rec0;
                let reward_add = match rec.cal_reward(self.cookie_reward_rate as u128, now) {
                    Ok(v) => v,
                    Err(e) => {
                        return Err(e);
                    },
                };
                let acc_reward = match rec.acc_reward.checked_add(reward_add) {
                    Some(v) => v,
                    None => {
                        return Err(StakeError::ArithmeticOverflow);
                    },
                };
                let clamped = if exchange_amount <= rec.total_stake {
                    exchange_amount
                } else {
                    rec.total_stake
                };
                Some(
                    Stake {
                        total_stake: rec.total_stake - clamped,
                        acc_reward,
                        last_update_time: now,
                    },
                )
            },
            None => None,
        };
        if !self.token.is_registered(self.contract_id) || !self.token.is_registered(signer_id) {
            return Err(StakeError::AccountNotRegistered);
        }
        let holding = self.token.ft_balance_of(self.contract_id);
        let shortfall = if holding < exchange_amount {
            exchange_amount - holding
        } else {
            0
        };
        if shortfall > 0 && self.token.total_supply() > u128::MAX - shortfall {
            return Err(StakeError::ArithmeticOverflow);
        }
        if signer_id != self.contract_id && self.token.ft_balance_of(signer_id)
            > u128::MAX - exchange_amount {
            return Err(StakeError::ArithmeticOverflow);
        }
        if shortfall > 0 {
            self.token.internal_deposit(self.contract_id, shortfall);
        }
        self.token.internal_transfer(self.contract_id, signer_id, exchange_amount);
        match new_record {
            Some(rec) => {
                self.stake.insert(signer_id, rec);
            },
            None => {},
        }
        Ok(())
    }
}

} // verus!
