//! End-to-end tests of the staking engine: the two-phase workflows, the
//! accrual formula, the fee policy, and every refusal path.
use neko_stake::accounts::StorageDepositRequest;
use neko_stake::stake::{ClaimRequest, ExchangeRequest, Stake, StakeRequest, NANOS_PER_MINUTE};
use neko_stake::tokens::MAX_SUPPLY;
use neko_stake::{Contract, StakeError};

const OWNER: u64 = 0;
const VAULT: u64 = 1;
const FACTORY: u64 = 2;
const CONTRACT: u64 = 3;
const ALICE: u64 = 10;
const BOB: u64 = 11;

fn fresh(fee_percent: u8, reward_rate: u8) -> Contract {
    Contract::new(OWNER, VAULT, FACTORY, fee_percent, reward_rate, CONTRACT)
}

/// A contract with ALICE registered and funded.
fn funded(fee_percent: u8, reward_rate: u8, balance: u128) -> Contract {
    let mut c = fresh(fee_percent, reward_rate);
    c.ft_mint(ALICE, balance).unwrap();
    c
}

#[test]
fn test_views() {
    let contract = fresh(5, 5);
    println!("Fee rate:{:?}", contract.get_fee_rate());
    assert!(contract.get_fee_rate() == 5);
    println!("Cookie reward rate:{:?}", contract.get_reward_rate());
    assert!(contract.get_reward_rate() == 5);
}

#[test]
fn test_owner_methods() {
    let mut contract = fresh(5, 5);
    assert!(contract.get_fee_rate() == 5);
    assert!(contract.get_reward_rate() == 5);
    contract.set_bake_fee(OWNER, 10).unwrap();
    contract.set_reward_rate(OWNER, 10).unwrap();
    println!("Fee rate:{:?}", contract.get_fee_rate());
    assert!(contract.get_fee_rate() == 10);
    println!("Cookie reward rate:{:?}", contract.get_reward_rate());
    assert!(contract.get_reward_rate() == 10);
}

#[test]
fn test_owner_access() {
    let mut contract = fresh(5, 5);
    assert_eq!(contract.set_reward_rate(ALICE, 10), Err(StakeError::NotOwner));
    assert_eq!(contract.get_reward_rate(), 5);
    assert_eq!(contract.assert_owner(ALICE), Err(StakeError::NotOwner));
    assert_eq!(contract.assert_owner_signer(OWNER), Ok(()));
}

#[test]
fn stake_request_fee_and_principal() {
    // Staking 100 at a 5% fee: fee 5, confirmed principal 95.
    let c = funded(5, 5, 1_000);
    let req = c.stake(ALICE, 100, 2).unwrap();
    assert_eq!(
        req,
        StakeRequest { account: ALICE, amount: 100, amount_after_fee: 95, fee: 5 }
    );
}

#[test]
fn stake_completion_creates_record() {
    let mut c = funded(5, 5, 1_000);
    let req = c.stake(ALICE, 100, 2).unwrap();
    c.neko_stake_call_back(ALICE, req.account, req.amount, req.fee, req.amount_after_fee, 7)
        .unwrap();
    let rec = c.get_stake_by_id(ALICE).unwrap();
    assert_eq!(rec, Stake { total_stake: 95, acc_reward: 0, last_update_time: 7 });
    // The gross amount moved out of the account; the fee was burned from
    // the contract's holding.
    assert_eq!(c.token.ft_balance_of(ALICE), 900);
    assert_eq!(c.token.ft_balance_of(CONTRACT), 95);
    assert_eq!(c.token.total_supply(), 995);
}

#[test]
fn stake_request_refusals() {
    let c = funded(5, 5, 1_000);
    assert_eq!(c.stake(ALICE, 100, 1), Err(StakeError::DepositMismatch));
    assert_eq!(c.stake(ALICE, 2_000, 2), Err(StakeError::InsufficientBalance));
    assert_eq!(c.stake(ALICE, 50, 2), Err(StakeError::BelowMinimumStake));
}

#[test]
fn stake_fee_overflow_refused() {
    let c = funded(5, 5, u128::MAX);
    assert_eq!(c.stake(ALICE, u128::MAX, 2), Err(StakeError::ArithmeticOverflow));
}

#[test]
fn stake_completion_wrong_account_refused() {
    let mut c = funded(5, 5, 1_000);
    let before = c.get_stake_by_id(ALICE);
    assert_eq!(
        c.neko_stake_call_back(ALICE, BOB, 100, 5, 95, 7),
        Err(StakeError::WrongAccount)
    );
    assert_eq!(c.get_stake_by_id(ALICE), before);
    assert_eq!(c.token.ft_balance_of(ALICE), 1_000);
}

#[test]
fn stake_completion_unregistered_refused() {
    let mut c = fresh(5, 5);
    assert_eq!(
        c.neko_stake_call_back(BOB, BOB, 100, 5, 95, 7),
        Err(StakeError::AccountNotRegistered)
    );
}

/// A record with `total_stake = 1000` at rate 5 accrues
/// `floor(1000 * 5 / 100) = 50` per full minute: 50 after one minute,
/// `50 * 60 = 3000` after sixty.
#[test]
fn settle_accrual_formula() {
    let mut c = funded(0, 5, 10_000);
    let req = c.stake(ALICE, 1_000, 2).unwrap();
    assert_eq!(req.amount_after_fee, 1_000);
    c.neko_stake_call_back(ALICE, ALICE, 1_000, 0, 1_000, 0).unwrap();

    c.update_stake_data(ALICE, NANOS_PER_MINUTE).unwrap();
    let rec = c.get_stake_by_id(ALICE).unwrap();
    assert_eq!(rec.acc_reward, 50);
    assert_eq!(rec.last_update_time, NANOS_PER_MINUTE);

    // Sixty further minutes add 50 per minute.
    c.update_stake_data(ALICE, 61 * NANOS_PER_MINUTE).unwrap();
    let rec = c.get_stake_by_id(ALICE).unwrap();
    assert_eq!(rec.acc_reward, 50 + 3_000);
}

/// Settling twice within the same minute window changes nothing the second
/// time.
#[test]
fn settle_idempotent_within_minute() {
    let mut c = funded(0, 5, 10_000);
    let req = c.stake(ALICE, 1_000, 2).unwrap();
    c.neko_stake_call_back(ALICE, ALICE, 1_000, 0, req.amount_after_fee, 0).unwrap();
    c.update_stake_data(ALICE, NANOS_PER_MINUTE + 1).unwrap();
    let once = c.get_stake_by_id(ALICE).unwrap();
    c.update_stake_data(ALICE, NANOS_PER_MINUTE + 2).unwrap();
    let twice = c.get_stake_by_id(ALICE).unwrap();
    assert_eq!(once, twice);
}

/// A zero accrued reward does not refresh the settlement timestamp.
#[test]
fn settle_zero_reward_keeps_timestamp() {
    let mut c = funded(0, 5, 10_000);
    c.neko_stake_call_back(ALICE, ALICE, 1_000, 0, 1_000, 0).unwrap();
    c.update_stake_data(ALICE, NANOS_PER_MINUTE - 1).unwrap();
    let rec = c.get_stake_by_id(ALICE).unwrap();
    assert_eq!(rec.acc_reward, 0);
    assert_eq!(rec.last_update_time, 0);
}

/// Settling an account with no record fails and mutates nothing.
#[test]
fn settle_missing_record_fails() {
    let mut c = funded(5, 5, 1_000);
    assert_eq!(c.update_stake_data(BOB, 7), Err(StakeError::MissingStakeRecord));
    assert_eq!(c.get_stake_by_id(BOB), Err(StakeError::MissingStakeRecord));
    assert_eq!(c.token.ft_balance_of(ALICE), 1_000);
}

/// Accrual is monotone: a later settlement never lowers the reward.
#[test]
fn accrual_monotonic_over_time() {
    let mut c = funded(0, 7, 10_000);
    c.neko_stake_call_back(ALICE, ALICE, 2_000, 0, 2_000, 0).unwrap();
    let mut previous: u128 = 0;
    for minutes in [1u64, 2, 5, 9, 60] {
        c.update_stake_data(ALICE, minutes * NANOS_PER_MINUTE).unwrap();
        let rec = c.get_stake_by_id(ALICE).unwrap();
        assert!(rec.acc_reward >= previous);
        previous = rec.acc_reward;
    }
    assert_eq!(previous, 140 * 60);
}

/// An increase then an equal decrease with no time elapsed restores the
/// principal; the reward only moves by the intervening settlement.
#[test]
fn increase_decrease_round_trip() {
    let mut c = funded(0, 5, 10_000);
    c.neko_stake_call_back(ALICE, ALICE, 1_000, 0, 1_000, 0).unwrap();
    c.update_stake_increase(ALICE, 400, NANOS_PER_MINUTE).unwrap();
    let after_up = c.get_stake_by_id(ALICE).unwrap();
    assert_eq!(after_up.total_stake, 1_400);
    assert_eq!(after_up.acc_reward, 50);
    c.update_stake_decrease(ALICE, 400, NANOS_PER_MINUTE).unwrap();
    let after_down = c.get_stake_by_id(ALICE).unwrap();
    assert_eq!(after_down.total_stake, 1_000);
    assert_eq!(after_down.acc_reward, 50);
}

/// A decrease on an account without a record is a tolerated no-op.
#[test]
fn decrease_missing_record_is_noop() {
    let mut c = funded(5, 5, 1_000);
    assert_eq!(c.update_stake_decrease(BOB, 400, 7), Ok(()));
    assert_eq!(c.get_stake_by_id(BOB), Err(StakeError::MissingStakeRecord));
}

/// Claiming with `acc_reward = 200` at a 10% fee dispatches 180; completion
/// zeroes the reward even after further accrual.
#[test]
fn claim_reward_scenario() {
    let mut c = funded(10, 5, 10_000);
    // total 400 at rate 5 accrues 20 per minute: 200 after 10 minutes.
    c.neko_stake_call_back(ALICE, ALICE, 400, 0, 400, 0).unwrap();
    c.update_stake_data(ALICE, 10 * NANOS_PER_MINUTE).unwrap();
    assert_eq!(c.get_stake_by_id(ALICE).unwrap().acc_reward, 200);

    let req = c.claim_cookie(ALICE, 1).unwrap();
    assert_eq!(req, ClaimRequest { account: ALICE, reward_after_fee: 180 });

    // More reward accrues between the request and its completion; the
    // completion still zeroes the whole field.
    c.update_stake_data(ALICE, 12 * NANOS_PER_MINUTE).unwrap();
    assert_eq!(c.get_stake_by_id(ALICE).unwrap().acc_reward, 240);
    c.claim_reward_call_back(ALICE).unwrap();
    assert_eq!(c.get_stake_by_id(ALICE).unwrap().acc_reward, 0);
}

#[test]
fn claim_refusals() {
    let mut c = funded(10, 5, 1_000);
    assert_eq!(c.claim_cookie(ALICE, 0), Err(StakeError::DepositMismatch));
    assert_eq!(c.claim_cookie(ALICE, 1), Err(StakeError::MissingStakeRecord));
    assert_eq!(c.claim_reward_call_back(BOB), Err(StakeError::MissingStakeRecord));
}

#[test]
fn unstake_request() {
    let c = funded(5, 5, 1_000);
    assert_eq!(c.unstake(700, 1), Ok(ExchangeRequest { amount: 700 }));
    assert_eq!(c.unstake(700, 0), Err(StakeError::DepositMismatch));
}

/// Unstaking more than the recorded principal clamps the decrease: a
/// confirmed exchange of 500 against a principal of 300 leaves 0, never an
/// underflow, while the full 500 is still paid out.
#[test]
fn unstake_clamps_to_principal() {
    let mut c = funded(0, 0, 10_000);
    let req = c.stake(ALICE, 300, 2).unwrap();
    c.neko_stake_call_back(ALICE, ALICE, 300, 0, req.amount_after_fee, 0).unwrap();
    assert_eq!(c.get_stake_by_id(ALICE).unwrap().total_stake, 300);

    c.cookie_exchange_call_back(ALICE, 500, 0).unwrap();
    assert_eq!(c.get_stake_by_id(ALICE).unwrap().total_stake, 0);
    // The contract held 300 and minted the 200 shortfall before paying 500.
    assert_eq!(c.token.ft_balance_of(ALICE), 10_000 - 300 + 500);
    assert_eq!(c.token.ft_balance_of(CONTRACT), 0);
}

/// An unstake completion for a signer without a record pays out without a
/// ledger change.
#[test]
fn unstake_without_record_pays_without_ledger_change() {
    let mut c = funded(5, 5, 1_000);
    c.cookie_exchange_call_back(ALICE, 50, 0).unwrap();
    assert_eq!(c.get_stake_by_id(ALICE), Err(StakeError::MissingStakeRecord));
    assert_eq!(c.token.ft_balance_of(ALICE), 1_050);
}

#[test]
fn mint_and_supply_cap() {
    let mut c = fresh(5, 5);
    c.ft_mint(ALICE, 10_000_000_000).unwrap();
    assert_eq!(c.token.ft_balance_of(ALICE), 10_000_000_000);
    assert_eq!(c.token.total_supply(), 10_000_000_000);
    // Minting for a fresh account registers it on the way.
    c.ft_mint(BOB, 0).unwrap();
    assert_eq!(c.token.ft_balance_of(BOB), 0);
    assert_eq!(
        c.ft_mint(ALICE, MAX_SUPPLY - 10_000_000_000 + 1),
        Err(StakeError::SupplyCapExceeded)
    );
}

#[test]
fn register_account_twice_refused() {
    let mut c = fresh(5, 5);
    assert_eq!(c.register_account(ALICE), Ok(()));
    assert_eq!(c.register_account(ALICE), Err(StakeError::AccountAlreadyRegistered));
}

#[test]
fn update_vault_owner_gated() {
    let mut c = fresh(5, 5);
    assert_eq!(c.update_vault(ALICE, 20), Err(StakeError::NotOwner));
    assert_eq!(c.update_vault(OWNER, 20), Ok(()));
    assert_eq!(c.token.vault(), 20);
    assert_eq!(c.update_vault(OWNER, VAULT), Err(StakeError::AccountAlreadyRegistered));
}

#[test]
fn setup_account_flow() {
    let mut c = fresh(5, 5);
    let cost: u128 = 10_000_000_000_000_000_000_000;
    assert_eq!(c.setup_account(ALICE, 2 * cost), Err(StakeError::InsufficientDeposit));
    let req = c.setup_account(ALICE, 2 * cost + 1).unwrap();
    assert_eq!(req, StorageDepositRequest { account: ALICE });
    c.setup_account_call_back(ALICE);
    assert_eq!(c.token.ft_balance_of(ALICE), 0);
    // Completing twice is tolerated.
    c.setup_account_call_back(ALICE);
    assert_eq!(c.register_account(ALICE), Err(StakeError::AccountAlreadyRegistered));
}

/// An increase for an account with no record creates one: `amount` as the
/// principal, no accrued reward, and the current time as its settlement.
#[test]
fn increase_missing_record_creates() {
    let mut c = funded(5, 5, 1_000);
    assert_eq!(c.update_stake_increase(BOB, 5, 7), Ok(()));
    assert_eq!(
        c.get_stake_by_id(BOB),
        Ok(Stake { total_stake: 5, acc_reward: 0, last_update_time: 7 })
    );
}

#[test]
fn stake_completion_insufficient_balance_refused() {
    let mut c = funded(5, 5, 1_000);
    assert_eq!(
        c.neko_stake_call_back(ALICE, ALICE, 2_000, 0, 1_900, 7),
        Err(StakeError::InsufficientBalance)
    );
    assert_eq!(c.token.ft_balance_of(ALICE), 1_000);
    assert_eq!(c.get_stake_by_id(ALICE), Err(StakeError::MissingStakeRecord));
}

/// The raw calculator on a bare record, including its overflow refusal.
#[test]
fn cal_reward_direct() {
    let rec = Stake { total_stake: 1_000, acc_reward: 0, last_update_time: 0 };
    assert_eq!(rec.cal_reward(5, 60 * NANOS_PER_MINUTE), Ok(3_000));
    assert_eq!(rec.cal_reward(5, NANOS_PER_MINUTE - 1), Ok(0));
    let big = Stake { total_stake: u128::MAX, acc_reward: 0, last_update_time: 0 };
    assert_eq!(
        big.cal_reward(2, NANOS_PER_MINUTE),
        Err(StakeError::ArithmeticOverflow)
    );
}
