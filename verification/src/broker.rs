//! The pricing and settlement engine.
//!
//! `offer` quotes instant liquidity for an unbond request, bounded by the
//! worst case of the lending rate jumping to its maximum for the whole
//! unbonding period; `accept_offer` tallies a commitment; `close_offer`
//! reconciles the funds that eventually return against the debt, the
//! reserve, and the protocol's revenue.

use vstd::arithmetic::div_mod::lemma_div_is_ordered;
use vstd::arithmetic::div_mod::lemma_div_pos_is_pos;
use vstd::arithmetic::mul::lemma_mul_inequality;
use vstd::arithmetic::mul::lemma_mul_left_inequality;
use vstd::arithmetic::mul::lemma_mul_nonnegative;
use vstd::prelude::*;

use crate::denoms::{Ask, Base, Debt};
use crate::error::ContractError;
use crate::math::{div_up, frac, AmountU128, Decimal};
use crate::rates::Rates;
use crate::reserve::StatusResponse;

verus! {

/// Seconds in a year, the unit in which lending rates are quoted.
pub const YEAR_SECONDS: u128 = 365 * 24 * 60 * 60;

/// The fraction of a year that `duration` seconds cover, in 18-decimal
/// fixed point rounded down.
pub open spec fn spec_year_fraction(duration: u64) -> int {
    (duration as int) * frac() / (YEAR_SECONDS as int)
}

/// A yearly rate scaled down to the unbonding period, rounded down.
pub open spec fn spec_period_rate(rate: int, duration: u64) -> int {
    rate * spec_year_fraction(duration) / frac()
}

/// Interest charged on `value` for one unbonding period at the yearly
/// `rate`, rounded up against the payer.
pub open spec fn spec_interest_amount(value: int, rate: int, duration: u64) -> int {
    div_up(value * spec_period_rate(rate, duration), frac())
}

/// Underlying value of `debt_tokens` debt-accounting tokens, rounded up:
/// the engine never rounds in its own favor against the vault.
pub open spec fn spec_debt_amount(rates: Rates, debt_tokens: int) -> int {
    div_up(debt_tokens * rates.vault_debt.dec.atomics, frac())
}

/// Whether a settlement goes through: the returned funds must cover the
/// debt owed to the vault in full.
pub open spec fn spec_close_succeeds(rates: Rates, debt_tokens: int, returned: int) -> bool {
    spec_debt_amount(rates, debt_tokens) <= returned
}

/// The part of the reserve allocation that returned funds can pay back.
pub open spec fn spec_reserve_return(alloc: int, remaining: int) -> int {
    if alloc <= remaining {
        alloc
    } else {
        remaining
    }
}

/// What a settlement adds to the cumulative returned-volume counter: the
/// returned funds net of the reserve allocation passing through.
pub open spec fn spec_quote_delta(returned: int, alloc: int) -> int {
    if returned >= alloc {
        returned - alloc
    } else {
        0
    }
}

/// The broker's configuration: a floor on the rate it charges, and the
/// unbonding period in seconds.
#[derive(Clone, Copy, Debug)]
pub struct Broker {
    /// The minimum yearly rate charged, whatever the market rate is.
    pub min_rate: Decimal,
    /// How long an unbonding request waits, in seconds.
    pub duration: u64,
}

/// An immutable, fully priced unstake request.
#[derive(Clone, Copy, Debug)]
pub struct Offer {
    /// The amount requested for unbonding.
    pub unbond_amount: AmountU128<Ask>,
    /// The amount paid out immediately to the unstaker.
    pub offer_amount: AmountU128<Base>,
    /// The part of the unbonded value withheld to cover interest.
    /// `offer_amount + fee == unbond_amount` valued at the provider's
    /// redemption rate.
    pub fee: AmountU128<Base>,
    /// Pool capital earmarked to cover this offer's worst-case shortfall.
    pub reserve_allocation: AmountU128<Base>,
}

/// Cumulative volume counters: what was ever sent for unbonding, and what
/// ever came back from completed unbondings.
#[derive(Clone, Copy, Debug)]
pub struct Status {
    /// Total amount ever requested for unbonding.
    pub total_base: AmountU128<Ask>,
    /// Total net amount ever returned from unbonding.
    pub total_quote: AmountU128<Base>,
}

impl Status {
    pub fn new() -> (s: Status)
        ensures
            s.total_base.amount == 0,
            s.total_quote.amount == 0,
    {
        Status { total_base: AmountU128::zero(), total_quote: AmountU128::zero() }
    }
}

impl Broker {
    pub fn new(min_rate: Decimal, duration: u64) -> (b: Broker)
        ensures
            b.min_rate == min_rate,
            b.duration == duration,
    {
        Broker { min_rate, duration }
    }

    /// Replace whichever configuration fields are given.
    pub fn update(&mut self, min_rate: Option<Decimal>, duration: Option<u64>)
        ensures
            final(self).min_rate == if min_rate is Some {
                min_rate->0
            } else {
                old(self).min_rate
            },
            final(self).duration == if duration is Some {
                duration->0
            } else {
                old(self).duration
            },
    {
        if let Some(min_rate) = min_rate {
            self.min_rate = min_rate;
        }
        if let Some(duration) = duration {
            self.duration = duration;
        }
    }

    /// The worst-case amount of the base asset that the unbond request is
    /// worth: what must eventually be borrowed.
    pub open spec fn spec_value(&self, rates: Rates, ask: int) -> int {
        ask * rates.provider_redemption.dec.atomics / frac()
    }

    /// The yearly rate actually charged: the market rate, floored at the
    /// configured minimum.
    pub open spec fn spec_offer_rate(&self, rates: Rates) -> int {
        if rates.vault_interest.atomics >= self.min_rate.atomics {
            rates.vault_interest.atomics as int
        } else {
            self.min_rate.atomics as int
        }
    }

    /// Whether the rate to charge stays within the modeled maximum; when it
    /// does not, `offer` fails with `RateOverflow`.
    pub open spec fn spec_rate_ok(&self, rates: Rates) -> bool {
        self.spec_offer_rate(rates) <= rates.vault_max_interest.atomics
    }

    /// The capital needed if the lending rate jumped to its maximum now and
    /// stayed there for the whole unbonding period.
    pub open spec fn spec_reserve_requirement(&self, rates: Rates, ask: int) -> int {
        spec_interest_amount(
            self.spec_value(rates, ask),
            rates.vault_max_interest.atomics - self.spec_offer_rate(rates),
            self.duration,
        )
    }

    /// The pool's available capital, valued in the base token.
    pub open spec fn spec_reserve_available(&self, rates: Rates, available_rcpt: int) -> int {
        available_rcpt * rates.vault_deposit.dec.atomics / frac()
    }

    /// The up-front interest charged at the quoted rate.
    pub open spec fn spec_fee_base(&self, rates: Rates, ask: int) -> int {
        spec_interest_amount(self.spec_value(rates, ask), self.spec_offer_rate(rates), self.duration)
    }

    /// Pool capital earmarked for the offer: the full requirement when the
    /// pool can cover it, all that is available otherwise.
    pub open spec fn spec_allocation(&self, rates: Rates, ask: int, available_rcpt: int) -> int {
        let req = self.spec_reserve_requirement(rates, ask);
        let avail = self.spec_reserve_available(rates, available_rcpt);
        if req <= avail {
            req
        } else {
            avail
        }
    }

    /// The whole fee: the up-front interest, plus whatever part of the
    /// worst-case requirement the pool could not cover.
    pub open spec fn spec_total_fee(&self, rates: Rates, ask: int, available_rcpt: int) -> int {
        self.spec_fee_base(rates, ask) + self.spec_reserve_requirement(rates, ask)
            - self.spec_allocation(rates, ask, available_rcpt)
    }

    /// What the unstaker is paid immediately.
    pub open spec fn spec_offer_amount(&self, rates: Rates, ask: int, available_rcpt: int) -> int {
        self.spec_value(rates, ask) - self.spec_total_fee(rates, ask, available_rcpt)
    }

    /// The arithmetic bounds under which an offer can be priced in 128-bit
    /// integers, and under which the clamped fee never exceeds the value.
    pub open spec fn spec_offer_requires(
        &self,
        status: StatusResponse,
        rates: Rates,
        ask: int,
    ) -> bool {
        &&& ask * rates.provider_redemption.dec.atomics <= u128::MAX
        &&& status.available.amount * rates.vault_deposit.dec.atomics <= u128::MAX
        &&& rates.vault_max_interest.atomics * spec_year_fraction(self.duration) <= u128::MAX
        &&& self.spec_value(rates, ask) * spec_period_rate(
            rates.vault_max_interest.atomics as int,
            self.duration,
        ) <= u128::MAX
        &&& (self.spec_rate_ok(rates) ==> self.spec_total_fee(
            rates,
            ask,
            status.available.amount as int,
        ) <= self.spec_value(rates, ask))
    }

    /// Interest on `amount` over one unbonding period at the yearly `rate`.
    fn interest_amount(&self, amount: AmountU128<Base>, rate: Decimal) -> (r: AmountU128<Base>)
        requires
            rate.atomics * spec_year_fraction(self.duration) <= u128::MAX,
            amount.amount * spec_period_rate(rate.atomics as int, self.duration) <= u128::MAX,
        ensures
            r.amount == spec_interest_amount(amount.amount as int, rate.atomics as int, self.duration),
    {
        let year_fraction = Decimal::from_ratio(self.duration as u128, YEAR_SECONDS);
        let period_rate = rate.mul_down(year_fraction);
        amount.dec_mul_ceil(period_rate)
    }

    /// Price an offer for `unbond_amount` of the staked token.
    ///
    /// Fails with `RateOverflow` exactly when the rate to charge exceeds the
    /// modeled maximum. Otherwise the offer pays out the unbonded value less
    /// the fee; when the pool cannot cover the whole worst-case requirement,
    /// the uncovered part is folded into the fee, so the offer never relies
    /// on capital the pool does not have.
    pub fn offer(
        &self,
        reserve_status: &StatusResponse,
        rates: &Rates,
        unbond_amount: AmountU128<Ask>,
    ) -> (r: Result<Offer, ContractError>)
        requires
            self.spec_offer_requires(*reserve_status, *rates, unbond_amount.amount as int),
        ensures
            r is Ok <==> self.spec_rate_ok(*rates),
            !self.spec_rate_ok(*rates) ==> r == Err::<Offer, ContractError>(
                ContractError::RateOverflow {},
            ),
            r matches Ok(o) ==> {
                &&& o.unbond_amount == unbond_amount
                &&& o.offer_amount.amount == self.spec_offer_amount(
                    *rates,
                    unbond_amount.amount as int,
                    reserve_status.available.amount as int,
                )
                &&& o.fee.amount == self.spec_total_fee(
                    *rates,
                    unbond_amount.amount as int,
                    reserve_status.available.amount as int,
                )
                &&& o.reserve_allocation.amount == self.spec_allocation(
                    *rates,
                    unbond_amount.amount as int,
                    reserve_status.available.amount as int,
                )
            },
    {
        let current_rate = rates.vault_interest;
        let max_rate = rates.vault_max_interest;

        // The value of the unstaked amount in the base asset: the most that
        // will ever have to be borrowed against it.
        let value = unbond_amount.mul_floor(&rates.provider_redemption);

        let offer_rate = current_rate.max_of(self.min_rate);
        let max_rate_shortfall = match max_rate.checked_sub(offer_rate) {
            Some(d) => d,
            None => {
                return Err(ContractError::RateOverflow {});
            },
        };

        proof {
            self.lemma_interest_bounds(*rates, unbond_amount.amount as int, max_rate_shortfall);
            self.lemma_interest_bounds(*rates, unbond_amount.amount as int, offer_rate);
        }

        // Capital needed if the lending rate spiked to its maximum for the
        // whole period: the pool must cover it for the offer to be safe.
        let reserve_requirement = self.interest_amount(value, max_rate_shortfall);
        let reserve_available = reserve_status.available.mul_floor(&rates.vault_deposit);

        // The up-front interest charged at the quoted rate.
        let fee = self.interest_amount(value, offer_rate);

        if reserve_available.amount >= reserve_requirement.amount {
            return Ok(
                Offer {
                    unbond_amount,
                    offer_amount: AmountU128::new(value.amount - fee.amount),
                    reserve_allocation: reserve_requirement,
                    fee,
                },
            );
        }

        // The pool cannot cover the worst case: consume all of it, and fold
        // the uncovered part into the fee, deducted from the payout.
        let reserve_shortfall = reserve_requirement.amount - reserve_available.amount;
        Ok(
            Offer {
                unbond_amount,
                offer_amount: AmountU128::new(value.amount - fee.amount - reserve_shortfall),
                reserve_allocation: reserve_available,
                fee: AmountU128::new(fee.amount + reserve_shortfall),
            },
        )
    }

    /// Tally an accepted offer into the cumulative unbonding volume.
    ///
    /// Not idempotent: the surrounding system must call this exactly once
    /// per accepted offer.
    pub fn accept_offer(&self, totals: &mut Status, offer: &Offer)
        requires
            old(totals).total_base.amount + offer.unbond_amount.amount <= u128::MAX,
        ensures
            final(totals).total_base.amount == old(totals).total_base.amount
                + offer.unbond_amount.amount,
            final(totals).total_quote == old(totals).total_quote,
    {
        totals.total_base = AmountU128::new(totals.total_base.amount + offer.unbond_amount.amount);
    }

    /// Settle an offer against what actually came back.
    ///
    /// `debt_tokens` is what is owed to the lending vault in its
    /// debt-accounting unit and `returned_tokens` is what the unbonding
    /// provider returned. Fails with `Insolvent` exactly when the debt
    /// exceeds the returned funds, leaving the totals untouched. On success
    /// the returned funds are allocated in strict priority: the debt first,
    /// then the reserve allocation, and whatever remains is settlement
    /// revenue; the three parts sum exactly to the returned funds.
    pub fn close_offer(
        &self,
        totals: &mut Status,
        rates: &Rates,
        offer: &Offer,
        debt_tokens: AmountU128<Debt>,
        returned_tokens: AmountU128<Base>,
    ) -> (r: Result<(AmountU128<Base>, AmountU128<Base>, AmountU128<Base>), ContractError>)
        requires
            debt_tokens.amount * rates.vault_debt.dec.atomics <= u128::MAX,
            old(totals).total_quote.amount + spec_quote_delta(
                returned_tokens.amount as int,
                offer.reserve_allocation.amount as int,
            ) <= u128::MAX,
        ensures
            r is Ok <==> spec_close_succeeds(
                *rates,
                debt_tokens.amount as int,
                returned_tokens.amount as int,
            ),
            r matches Ok((debt_amount, reserve_return, fee_amount)) ==> {
                &&& debt_amount.amount == spec_debt_amount(*rates, debt_tokens.amount as int)
                &&& reserve_return.amount == spec_reserve_return(
                    offer.reserve_allocation.amount as int,
                    returned_tokens.amount - debt_amount.amount,
                )
                &&& debt_amount.amount + reserve_return.amount + fee_amount.amount
                    == returned_tokens.amount
                &&& final(totals).total_base == old(totals).total_base
                &&& final(totals).total_quote.amount == old(totals).total_quote.amount
                    + spec_quote_delta(
                    returned_tokens.amount as int,
                    offer.reserve_allocation.amount as int,
                )
            },
            r is Err ==> {
                &&& r == Err::<(AmountU128<Base>, AmountU128<Base>, AmountU128<Base>),
                    ContractError,
                >(
                    ContractError::Insolvent {
                        debt_remaining: (spec_debt_amount(*rates, debt_tokens.amount as int)
                            - returned_tokens.amount) as u128,
                    },
                )
                &&& *final(totals) == *old(totals)
            },
    {
        let debt_amount = debt_tokens.mul_ceil(&rates.vault_debt);

        // The reserve prepaid part of the debt and the fee should cover the
        // rest; anything else means the worst-case bound fixed at offer time
        // was broken, and an operator must step in.
        if debt_amount.amount > returned_tokens.amount {
            return Err(
                ContractError::Insolvent {
                    debt_remaining: debt_amount.amount - returned_tokens.amount,
                },
            );
        }

        // Tally the net returned volume; the reserve allocation only passes
        // through and is not counted.
        let quote_delta: u128 = if returned_tokens.amount >= offer.reserve_allocation.amount {
            returned_tokens.amount - offer.reserve_allocation.amount
        } else {
            0
        };
        totals.total_quote = AmountU128::new(totals.total_quote.amount + quote_delta);

        // Allocate what came back, in strict priority: repay the vault
        // first, then the solvency fund, and what is left is revenue.
        let remaining = returned_tokens.amount - debt_amount.amount;
        let reserve_return: u128 = if offer.reserve_allocation.amount <= remaining {
            offer.reserve_allocation.amount
        } else {
            remaining
        };
        let fee_amount = remaining - reserve_return;

        Ok((debt_amount, AmountU128::new(reserve_return), AmountU128::new(fee_amount)))
    }

    /// The interest bounds that `spec_offer_requires` grants for the maximum
    /// rate carry over to any rate at or below it.
    proof fn lemma_interest_bounds(&self, rates: Rates, ask: int, rate: Decimal)
        requires
            rate.atomics <= rates.vault_max_interest.atomics,
            rates.vault_max_interest.atomics * spec_year_fraction(self.duration) <= u128::MAX,
            self.spec_value(rates, ask) * spec_period_rate(
                rates.vault_max_interest.atomics as int,
                self.duration,
            ) <= u128::MAX,
            ask >= 0,
        ensures
            rate.atomics * spec_year_fraction(self.duration) <= u128::MAX,
            self.spec_value(rates, ask) * spec_period_rate(rate.atomics as int, self.duration)
                <= u128::MAX,
    {
        let yf = spec_year_fraction(self.duration);
        let max_at = rates.vault_max_interest.atomics as int;
        let value = self.spec_value(rates, ask);
        lemma_div_pos_is_pos((self.duration as int) * frac(), YEAR_SECONDS as int);
        lemma_mul_nonnegative(rate.atomics as int, yf);
        lemma_mul_inequality(rate.atomics as int, max_at, yf);
        lemma_div_is_ordered(rate.atomics * yf, max_at * yf, frac());
        lemma_div_pos_is_pos(rate.atomics * yf, frac());
        lemma_mul_nonnegative(ask, rates.provider_redemption.dec.atomics as int);
        lemma_div_pos_is_pos(ask * rates.provider_redemption.dec.atomics, frac());
        if value > 0 {
            lemma_mul_left_inequality(
                value,
                spec_period_rate(rate.atomics as int, self.duration),
                spec_period_rate(max_at, self.duration),
            );
        } else {
            assert(value * spec_period_rate(rate.atomics as int, self.duration) == 0)
                by (nonlinear_arith)
                requires
                    value == 0,
            ;
        }
    }
}

} // verus!
