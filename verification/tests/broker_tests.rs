//! Quoting and settlement, driven end to end with one set of market
//! numbers: redemption rate 1.07375, current lending rate 100%, maximum
//! rate 300%, two-week unbonding, minimum rate 3%, vault debt rate 1.12.

use unstake::broker::{Broker, Status, YEAR_SECONDS};
use unstake::controller;
use unstake::denoms::{Base, Debt, Rcpt};
use unstake::error::ContractError;
use unstake::math::{AmountU128, Decimal, Rate};
use unstake::rates::Rates;
use unstake::reserve;
use unstake::reserve::{State, Whitelist};
use unstake::Addr;

const E: u128 = 1_000_000_000_000_000_000;
const TWO_WEEKS: u64 = 2 * 7 * 24 * 60 * 60;

fn fixture_rates() -> Rates {
    Rates::new(
        Rate::new(Decimal::raw(1_120_000_000_000_000_000)).unwrap(),
        Rate::new(Decimal::one()).unwrap(),
        Decimal::one(),
        Decimal::raw(3 * E),
        Rate::new(Decimal::raw(1_073_750_000_000_000_000)).unwrap(),
    )
}

fn fixture_broker() -> Broker {
    Broker::new(Decimal::raw(30_000_000_000_000_000), TWO_WEEKS)
}

fn ghost_deposit_rate() -> Rate<Base, Rcpt> {
    Rate::new(Decimal::one()).unwrap()
}

/// The vault's debt rate after `days` of interest at 100% a year, starting
/// from 1.12.
fn debt_rate_after(days: u64) -> Rate<Base, Debt> {
    let delta = Decimal::from_ratio(days as u128 * 86_400, YEAR_SECONDS);
    let factor = Decimal::one().checked_add(delta).unwrap();
    Rate::new(Decimal::raw(1_120_000_000_000_000_000).mul_down(factor)).unwrap()
}

fn pool_with(available: u128) -> State {
    let mut state = State::new();
    if available > 0 {
        reserve::fund(&mut state, AmountU128::new(available), ghost_deposit_rate()).unwrap();
    }
    state
}

fn quote(broker: &Broker, available: u128, amount: u128) -> (u128, u128, u128) {
    let state = pool_with(available);
    let status = state.status(ghost_deposit_rate());
    let offer = broker
        .offer(&status, &fixture_rates(), AmountU128::new(amount))
        .unwrap();
    (
        offer.offer_amount.u128(),
        offer.fee.u128(),
        offer.reserve_allocation.u128(),
    )
}

#[test]
fn quote_initial() {
    // A fresh deployment with no reserve fund: the worst-case shortfall
    // against the maximum rate is folded entirely into the fee.
    let (amount, fee, _) = quote(&fixture_broker(), 0, 10000);
    assert_eq!(amount, 9501);
    assert_eq!(fee, 1236);
}

#[test]
fn quote_reserve_clamped() {
    // A small reserve fund that the offer consumes entirely.
    let (amount, fee, allocation) = quote(&fixture_broker(), 200, 10000);
    assert_eq!(amount, 9701);
    assert_eq!(fee, 1036);
    assert_eq!(allocation, 200);
}

#[test]
fn quote_unclamped() {
    // Plenty of reserves: priced at the current market rate.
    let (amount, fee, allocation) = quote(&fixture_broker(), 20000, 10000);
    assert_eq!(amount, 10325);
    assert_eq!(fee, 412);
    assert_eq!(allocation, 824);
}

#[test]
fn quote_min_rate_clamped() {
    // The configured minimum rate (110%) exceeds the market rate (100%).
    let broker = Broker::new(Decimal::raw(1_100_000_000_000_000_000), TWO_WEEKS);
    let (amount, fee, _) = quote(&broker, 20000, 10000);
    assert_eq!(amount, 10283);
    assert_eq!(fee, 454);
}

#[test]
fn quote_rate_overflow() {
    // A minimum rate above the modeled maximum is a configuration error.
    let broker = Broker::new(Decimal::raw(4 * E), TWO_WEEKS);
    let state = pool_with(20000);
    let status = state.status(ghost_deposit_rate());
    let r = broker.offer(&status, &fixture_rates(), AmountU128::new(10000));
    assert_eq!(r.unwrap_err(), ContractError::RateOverflow {});
}

#[test]
fn execute_offer() {
    let broker = fixture_broker();
    let rates = fixture_rates();
    let g = ghost_deposit_rate();
    let controller_addr = Addr::new(7);

    let mut state = pool_with(20000);
    let mut whitelist = Whitelist::new();
    whitelist.upsert(controller_addr, None);

    let mut totals = Status::new();
    let status = state.status(g);
    let (offer, borrow) = controller::unstake(
        &broker,
        &mut totals,
        &status,
        &rates,
        AmountU128::new(10000),
        AmountU128::new(10000),
    )
    .unwrap();

    // The unstaker is paid the full quote; the pool contributes its
    // allocation and the rest is borrowed.
    assert_eq!(offer.offer_amount.u128(), 10325);
    assert_eq!(offer.reserve_allocation.u128(), 824);
    assert_eq!(borrow.u128(), 9501);

    reserve::request_reserves(
        &mut state,
        &mut whitelist,
        controller_addr,
        offer.reserve_allocation,
        g,
    )
    .unwrap();
    assert_eq!(state.available.u128(), 20000 - 824);
    assert_eq!(state.deployed.u128(), 824);

    // The vault issues debt tokens for the borrow at its current rate.
    let debt_tokens: AmountU128<Debt> = borrow.div_ceil(&debt_rate_after(0));
    assert_eq!(debt_tokens.u128(), 8484);

    assert_eq!(totals.total_base.u128(), 10000);
    assert_eq!(totals.total_quote.u128(), 0);
}

#[test]
fn execute_unfunded_offer() {
    let broker = fixture_broker();
    let rates = fixture_rates();
    let mut state = pool_with(0);
    let mut whitelist = Whitelist::new();
    whitelist.upsert(Addr::new(7), None);

    let mut totals = Status::new();
    let status = state.status(ghost_deposit_rate());
    let (offer, borrow) = controller::unstake(
        &broker,
        &mut totals,
        &status,
        &rates,
        AmountU128::new(10000),
        AmountU128::new(10000),
    )
    .unwrap();

    // With no reserve there is no allocation: everything is borrowed.
    assert_eq!(offer.offer_amount.u128(), 9501);
    assert_eq!(offer.reserve_allocation.u128(), 0);
    assert_eq!(borrow.u128(), 9501);

    let debt_tokens: AmountU128<Debt> = borrow.div_ceil(&debt_rate_after(0));
    assert_eq!(debt_tokens.u128(), 8484);

    assert_eq!(state.available.u128(), 0);
    assert_eq!(state.deployed.u128(), 0);
    assert_eq!(totals.total_base.u128(), 10000);
    assert_eq!(totals.total_quote.u128(), 0);
}

fn controller_config() -> controller::Config {
    controller::Config::new(
        Addr::new(1),
        Decimal::raw(250_000_000_000_000_000),
        Addr::new(2),
        1,
    )
}

#[test]
fn close_offer() {
    // The lending rate stays as predicted, so the unstake settles at a
    // small profit: the fee was charged on the full value but interest
    // accrues only on what was actually borrowed.
    let broker = fixture_broker();
    let g = ghost_deposit_rate();
    let controller_addr = Addr::new(7);

    let mut state = pool_with(20000);
    let mut whitelist = Whitelist::new();
    whitelist.upsert(controller_addr, None);

    let mut totals = Status::new();
    let status = state.status(g);
    let (offer, borrow) = controller::unstake(
        &broker,
        &mut totals,
        &status,
        &fixture_rates(),
        AmountU128::new(10000),
        AmountU128::new(10000),
    )
    .unwrap();
    reserve::request_reserves(
        &mut state,
        &mut whitelist,
        controller_addr,
        offer.reserve_allocation,
        g,
    )
    .unwrap();
    assert_eq!(state.available.u128(), 20000 - 824);
    assert_eq!(state.deployed.u128(), 824);

    let debt_tokens: AmountU128<Debt> = borrow.div_ceil(&debt_rate_after(0));

    // Two weeks later the unbonded value returns and the debt has grown.
    let mut rates = fixture_rates();
    rates.vault_debt = debt_rate_after(14);
    let settlement = controller::complete(
        &broker,
        &controller_config(),
        &mut totals,
        &rates,
        &offer,
        debt_tokens,
        AmountU128::new(10737),
    )
    .unwrap();

    // Fee charged: 412 on the full value; interest actually paid: 366 on
    // the borrow. Of the 46 of profit, a quarter goes to the protocol.
    assert_eq!(settlement.repay_amount.u128(), 9867);
    assert_eq!(settlement.protocol_fee_amount.u128(), 11);
    assert_eq!(settlement.reserve_return.u128(), 824 + 35);

    reserve::return_reserves(
        &mut state,
        &mut whitelist,
        controller_addr,
        offer.reserve_allocation,
        settlement.reserve_return,
        g,
    )
    .unwrap();

    // The pool recovered its allocation plus its share of the profit.
    assert_eq!(state.available.u128(), 20000 + 35);
    assert_eq!(state.deployed.u128(), 0);
    assert_eq!(
        state.reserve_redemption_ratio.rate().atomics,
        1_001_750_000_000_000_000
    );
    assert_eq!(totals.total_base.u128(), 10000);
    // Returned funds net of the reserve allocation passing through.
    assert_eq!(totals.total_quote.u128(), 10737 - 824);
}

#[test]
fn close_early_offer() {
    // Nothing has come back from the provider beyond the reserve
    // allocation: the unbonding has not completed, so settling is refused.
    let broker = fixture_broker();
    let g = ghost_deposit_rate();
    let mut state = pool_with(20000);
    let mut whitelist = Whitelist::new();
    whitelist.upsert(Addr::new(7), None);

    let mut totals = Status::new();
    let status = state.status(g);
    let (offer, borrow) = controller::unstake(
        &broker,
        &mut totals,
        &status,
        &fixture_rates(),
        AmountU128::new(10000),
        AmountU128::new(10000),
    )
    .unwrap();
    let debt_tokens: AmountU128<Debt> = borrow.div_ceil(&debt_rate_after(0));

    let mut rates = fixture_rates();
    rates.vault_debt = debt_rate_after(13);
    let r = controller::complete(
        &broker,
        &controller_config(),
        &mut totals,
        &rates,
        &offer,
        debt_tokens,
        offer.reserve_allocation,
    );
    assert!(r.is_err());
}

#[test]
fn close_losing_offer() {
    // The unbonding completes a week late: the extra interest eats the
    // whole profit and part of the reserve allocation.
    let broker = fixture_broker();
    let g = ghost_deposit_rate();
    let controller_addr = Addr::new(7);

    let mut state = pool_with(20000);
    let mut whitelist = Whitelist::new();
    whitelist.upsert(controller_addr, None);

    let mut totals = Status::new();
    let status = state.status(g);
    let (offer, borrow) = controller::unstake(
        &broker,
        &mut totals,
        &status,
        &fixture_rates(),
        AmountU128::new(10000),
        AmountU128::new(10000),
    )
    .unwrap();
    reserve::request_reserves(
        &mut state,
        &mut whitelist,
        controller_addr,
        offer.reserve_allocation,
        g,
    )
    .unwrap();
    let debt_tokens: AmountU128<Debt> = borrow.div_ceil(&debt_rate_after(0));

    let mut rates = fixture_rates();
    rates.vault_debt = debt_rate_after(21);
    let settlement = controller::complete(
        &broker,
        &controller_config(),
        &mut totals,
        &rates,
        &offer,
        debt_tokens,
        AmountU128::new(10737),
    )
    .unwrap();

    // 21 days of interest on the borrow exceed the fee: no revenue, and
    // only part of the allocation comes back.
    assert_eq!(settlement.repay_amount.u128(), 10049);
    assert_eq!(settlement.protocol_fee_amount.u128(), 0);
    assert_eq!(settlement.reserve_return.u128(), 688);

    reserve::return_reserves(
        &mut state,
        &mut whitelist,
        controller_addr,
        offer.reserve_allocation,
        settlement.reserve_return,
        g,
    )
    .unwrap();

    // The pool absorbs the realised loss: its ratio drops by 136/20000.
    assert_eq!(state.available.u128(), 19864);
    assert_eq!(state.deployed.u128(), 0);
    assert_eq!(
        state.reserve_redemption_ratio.rate().atomics,
        993_200_000_000_000_000
    );
}

#[test]
fn close_insolvent_offer() {
    // Returned funds below the grown debt: settlement fails loudly with
    // what is still owed, and the totals stay untouched.
    let broker = fixture_broker();
    let mut totals = Status::new();
    let g = ghost_deposit_rate();
    let mut state = pool_with(20000);
    let status = state.status(g);
    let (offer, borrow) = controller::unstake(
        &broker,
        &mut totals,
        &status,
        &fixture_rates(),
        AmountU128::new(10000),
        AmountU128::new(10000),
    )
    .unwrap();
    let debt_tokens: AmountU128<Debt> = borrow.div_ceil(&debt_rate_after(0));

    let mut rates = fixture_rates();
    rates.vault_debt = debt_rate_after(14);
    let r = controller::complete(
        &broker,
        &controller_config(),
        &mut totals,
        &rates,
        &offer,
        debt_tokens,
        AmountU128::new(9000),
    );
    assert_eq!(
        r.unwrap_err(),
        ContractError::Insolvent {
            debt_remaining: 9867 - 9000
        }
    );
    assert_eq!(totals.total_quote.u128(), 0);
}

#[test]
fn unstake_max_fee_exceeded() {
    // The client caps the fee below the quote: nothing is committed.
    let broker = fixture_broker();
    let mut totals = Status::new();
    let state = pool_with(20000);
    let status = state.status(ghost_deposit_rate());
    let r = controller::unstake(
        &broker,
        &mut totals,
        &status,
        &fixture_rates(),
        AmountU128::new(10000),
        AmountU128::new(411),
    );
    assert_eq!(r.unwrap_err(), ContractError::MaxFeeExceeded {});
    assert_eq!(totals.total_base.u128(), 0);
}

#[test]
fn reserves() {
    // Share minting and redemption across a full unstake cycle.
    let broker = fixture_broker();
    let g = ghost_deposit_rate();
    let controller_addr = Addr::new(7);

    let mut state = State::new();
    let mut whitelist = Whitelist::new();
    whitelist.upsert(controller_addr, None);

    let minted = reserve::fund(&mut state, AmountU128::new(20000), g).unwrap();
    assert_eq!(minted.u128(), 20000);

    // A second deposit with no revenue yet mints at the same ratio.
    let minted = reserve::fund(&mut state, AmountU128::new(20000), g).unwrap();
    assert_eq!(minted.u128(), 20000);

    // An unstake consumes part of the reserve.
    let mut totals = Status::new();
    let status = state.status(g);
    let (offer, borrow) = controller::unstake(
        &broker,
        &mut totals,
        &status,
        &fixture_rates(),
        AmountU128::new(10000),
        AmountU128::new(10000),
    )
    .unwrap();
    reserve::request_reserves(
        &mut state,
        &mut whitelist,
        controller_addr,
        offer.reserve_allocation,
        g,
    )
    .unwrap();

    // Withdrawing everything while reserves are deployed must fail...
    let r = reserve::withdraw(&mut state, AmountU128::new(40000), g);
    assert!(r.is_err());

    // ...but a smaller withdrawal redeems at the stored ratio.
    let paid = reserve::withdraw(&mut state, AmountU128::new(20000), g).unwrap();
    assert_eq!(paid.u128(), 20000);

    // Two weeks later the position settles at a profit for the pool.
    let debt_tokens: AmountU128<Debt> = borrow.div_ceil(&debt_rate_after(0));
    let mut rates = fixture_rates();
    rates.vault_debt = debt_rate_after(14);
    let settlement = controller::complete(
        &broker,
        &controller_config(),
        &mut totals,
        &rates,
        &offer,
        debt_tokens,
        AmountU128::new(10737),
    )
    .unwrap();
    reserve::return_reserves(
        &mut state,
        &mut whitelist,
        controller_addr,
        offer.reserve_allocation,
        settlement.reserve_return,
        g,
    )
    .unwrap();

    // Ratio is now 1.0 + 35 / 20000 = 1.00175, so the third deposit mints
    // slightly fewer shares.
    let minted = reserve::fund(&mut state, AmountU128::new(20000), g).unwrap();
    assert_eq!(minted.u128(), 19965);

    // And a withdrawal redeems at fractionally more than one.
    let paid = reserve::withdraw(&mut state, AmountU128::new(20000), g).unwrap();
    assert_eq!(paid.u128(), 20035);
}
