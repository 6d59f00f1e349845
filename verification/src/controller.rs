//! Decisions of the unstaking controller: quoting and committing an
//! unstake, and settling a completed unbonding, with the protocol's cut of
//! the revenue split out.

use vstd::arithmetic::div_mod::lemma_div_is_ordered;
use vstd::arithmetic::div_mod::lemma_div_multiples_vanish;
use vstd::arithmetic::mul::lemma_mul_inequality;
use vstd::prelude::*;

use crate::broker::{spec_debt_amount, spec_quote_delta, spec_reserve_return, Broker, Offer, Status};
use crate::denoms::{Ask, Base, Debt};
use crate::error::ContractError;
use crate::math::{frac, AmountU128, Decimal};
use crate::rates::Rates;
use crate::reserve::StatusResponse;
use crate::Addr;

verus! {

/// The controller's configuration.
#[derive(Clone, Copy, Debug)]
pub struct Config {
    /// The account allowed to change this configuration.
    pub owner: Addr,
    /// The protocol's share of settlement revenue, as a fraction of one.
    pub protocol_fee: Decimal,
    /// Where the protocol's share is sent.
    pub protocol_fee_address: Addr,
    /// Code identifier used to instantiate one delegate per unbonding.
    pub delegate_code_id: u64,
}

/// The asset movements that settle one completed unbonding: the surrounding
/// system turns them into the actual transfers.
#[derive(Clone, Copy, Debug)]
pub struct Settlement {
    /// Base tokens repaid to the lending vault, covering the debt exactly.
    pub repay_amount: AmountU128<Base>,
    /// Base tokens handed back to the reserve pool: the recovered
    /// allocation plus the pool's share of the revenue.
    pub reserve_return: AmountU128<Base>,
    /// Base tokens sent to the protocol's fee address.
    pub protocol_fee_amount: AmountU128<Base>,
}

/// The protocol's cut of settlement revenue, rounded down in the pool's
/// favor.
pub open spec fn spec_protocol_cut(fee_amount: int, protocol_fee: Decimal) -> int {
    fee_amount * protocol_fee.atomics / frac()
}

impl Config {
    pub fn new(
        owner: Addr,
        protocol_fee: Decimal,
        protocol_fee_address: Addr,
        delegate_code_id: u64,
    ) -> (c: Config)
        ensures
            c == (Config { owner, protocol_fee, protocol_fee_address, delegate_code_id }),
    {
        Config { owner, protocol_fee, protocol_fee_address, delegate_code_id }
    }

    /// Replace whichever configuration fields are given.
    pub fn update(
        &mut self,
        owner: Option<Addr>,
        protocol_fee: Option<Decimal>,
        protocol_fee_address: Option<Addr>,
        delegate_code_id: Option<u64>,
    )
        ensures
            final(self).owner == (if owner is Some {
                owner->0
            } else {
                old(self).owner
            }),
            final(self).protocol_fee == (if protocol_fee is Some {
                protocol_fee->0
            } else {
                old(self).protocol_fee
            }),
            final(self).protocol_fee_address == (if protocol_fee_address is Some {
                protocol_fee_address->0
            } else {
                old(self).protocol_fee_address
            }),
            final(self).delegate_code_id == (if delegate_code_id is Some {
                delegate_code_id->0
            } else {
                old(self).delegate_code_id
            }),
    {
        if let Some(owner) = owner {
            self.owner = owner;
        }
        if let Some(protocol_fee) = protocol_fee {
            self.protocol_fee = protocol_fee;
        }
        if let Some(protocol_fee_address) = protocol_fee_address {
            self.protocol_fee_address = protocol_fee_address;
        }
        if let Some(delegate_code_id) = delegate_code_id {
            self.delegate_code_id = delegate_code_id;
        }
    }
}

/// Quote and commit an unstake of `amount`, refusing quotes whose fee
/// exceeds what the client allowed.
///
/// On success the offer is tallied into the running totals, and the second
/// component is what must be borrowed from the vault: the payout less the
/// capital the reserve pool contributes.
pub fn unstake(
    broker: &Broker,
    totals: &mut Status,
    reserve_status: &StatusResponse,
    rates: &Rates,
    amount: AmountU128<Ask>,
    max_fee: AmountU128<Base>,
) -> (r: Result<(Offer, AmountU128<Base>), ContractError>)
    requires
        broker.spec_offer_requires(*reserve_status, *rates, amount.amount as int),
        broker.spec_rate_ok(*rates) ==> broker.spec_allocation(
            *rates,
            amount.amount as int,
            reserve_status.available.amount as int,
        ) <= broker.spec_offer_amount(
            *rates,
            amount.amount as int,
            reserve_status.available.amount as int,
        ),
        old(totals).total_base.amount + amount.amount <= u128::MAX,
    ensures
        !broker.spec_rate_ok(*rates) ==> r == Err::<(Offer, AmountU128<Base>), ContractError>(
            ContractError::RateOverflow {},
        ) && *final(totals) == *old(totals),
        broker.spec_rate_ok(*rates) && broker.spec_total_fee(
            *rates,
            amount.amount as int,
            reserve_status.available.amount as int,
        ) > max_fee.amount ==> r == Err::<(Offer, AmountU128<Base>), ContractError>(
            ContractError::MaxFeeExceeded {},
        ) && *final(totals) == *old(totals),
        broker.spec_rate_ok(*rates) && broker.spec_total_fee(
            *rates,
            amount.amount as int,
            reserve_status.available.amount as int,
        ) <= max_fee.amount ==> {
            &&& r matches Ok((offer, borrow))
            &&& offer.unbond_amount == amount
            &&& offer.offer_amount.amount == broker.spec_offer_amount(
                *rates,
                amount.amount as int,
                reserve_status.available.amount as int,
            )
            &&& offer.fee.amount == broker.spec_total_fee(
                *rates,
                amount.amount as int,
                reserve_status.available.amount as int,
            )
            &&& offer.reserve_allocation.amount == broker.spec_allocation(
                *rates,
                amount.amount as int,
                reserve_status.available.amount as int,
            )
            &&& borrow.amount == offer.offer_amount.amount - offer.reserve_allocation.amount
            &&& final(totals).total_base.amount == old(totals).total_base.amount + amount.amount
            &&& final(totals).total_quote == old(totals).total_quote
        },
{
    let offer = match broker.offer(reserve_status, rates, amount) {
        Ok(o) => o,
        Err(e) => {
            return Err(e);
        },
    };
    if offer.fee.amount > max_fee.amount {
        return Err(ContractError::MaxFeeExceeded {});
    }
    broker.accept_offer(totals, &offer);

    // The reserve pool's contribution arrives separately, so only the rest
    // of the payout is borrowed from the vault.
    let borrow_amount = AmountU128::new(offer.offer_amount.amount - offer.reserve_allocation.amount);
    Ok((offer, borrow_amount))
}

/// Settle a completed unbonding: repay the vault, refill the reserve, and
/// split the remaining revenue between the protocol and the pool.
///
/// `returned_tokens` must at least cover the offer's reserve allocation,
/// which always comes back; funds equal to the allocation alone mean the
/// unbonding has not actually completed, and the settlement is refused.
/// On success the three parts sum exactly to the returned funds.
pub fn complete(
    broker: &Broker,
    config: &Config,
    totals: &mut Status,
    rates: &Rates,
    offer: &Offer,
    debt_tokens: AmountU128<Debt>,
    returned_tokens: AmountU128<Base>,
) -> (r: Result<Settlement, ContractError>)
    requires
        returned_tokens.amount >= offer.reserve_allocation.amount,
        config.protocol_fee.atomics <= frac(),
        debt_tokens.amount * rates.vault_debt.dec.atomics <= u128::MAX,
        old(totals).total_quote.amount + spec_quote_delta(
            returned_tokens.amount as int,
            offer.reserve_allocation.amount as int,
        ) <= u128::MAX,
        returned_tokens.amount * config.protocol_fee.atomics <= u128::MAX,
    ensures
        returned_tokens.amount == offer.reserve_allocation.amount ==> r == Err::<
            Settlement,
            ContractError,
        >(ContractError::InsufficentFunds {}) && *final(totals) == *old(totals),
        returned_tokens.amount > offer.reserve_allocation.amount && spec_debt_amount(
            *rates,
            debt_tokens.amount as int,
        ) > returned_tokens.amount ==> r == Err::<Settlement, ContractError>(
            ContractError::Insolvent {
                debt_remaining: (spec_debt_amount(*rates, debt_tokens.amount as int)
                    - returned_tokens.amount) as u128,
            },
        ) && *final(totals) == *old(totals),
        returned_tokens.amount > offer.reserve_allocation.amount && spec_debt_amount(
            *rates,
            debt_tokens.amount as int,
        ) <= returned_tokens.amount ==> {
            let debt = spec_debt_amount(*rates, debt_tokens.amount as int);
            let recovered = spec_reserve_return(
                offer.reserve_allocation.amount as int,
                returned_tokens.amount - debt,
            );
            let fee_amount = returned_tokens.amount - debt - recovered;
            let protocol = spec_protocol_cut(fee_amount, config.protocol_fee);
            &&& r matches Ok(s)
            &&& s.repay_amount.amount == debt
            &&& s.protocol_fee_amount.amount == protocol
            &&& s.reserve_return.amount == recovered + (fee_amount - protocol)
            &&& s.repay_amount.amount + s.reserve_return.amount + s.protocol_fee_amount.amount
                == returned_tokens.amount
            &&& final(totals).total_base == old(totals).total_base
            &&& final(totals).total_quote.amount == old(totals).total_quote.amount
                + spec_quote_delta(
                returned_tokens.amount as int,
                offer.reserve_allocation.amount as int,
            )
        },
{
    // Getting back exactly the reserve allocation means the provider has
    // not yet released the unbonded funds.
    if returned_tokens.amount - offer.reserve_allocation.amount == 0 {
        return Err(ContractError::InsufficentFunds {});
    }

    let (repay_amount, reserve_recovered, fee_amount) = match broker.close_offer(
        totals,
        rates,
        offer,
        debt_tokens,
        returned_tokens,
    ) {
        Ok(t) => t,
        Err(e) => {
            return Err(e);
        },
    };

    proof {
        lemma_mul_inequality(
            fee_amount.amount as int,
            returned_tokens.amount as int,
            config.protocol_fee.atomics as int,
        );
        lemma_mul_inequality(
            config.protocol_fee.atomics as int,
            frac(),
            fee_amount.amount as int,
        );
        lemma_div_is_ordered(
            fee_amount.amount * config.protocol_fee.atomics,
            fee_amount.amount * frac(),
            frac(),
        );
        lemma_div_multiples_vanish(fee_amount.amount as int, frac());
    }

    // Split the revenue: the protocol takes its configured cut, rounded
    // down, and the pool keeps the rest.
    let protocol_fee_amount = fee_amount.dec_mul_floor(config.protocol_fee);
    let reserve_fee = fee_amount.amount - protocol_fee_amount.amount;

    Ok(
        Settlement {
            repay_amount,
            reserve_return: AmountU128::new(reserve_recovered.amount + reserve_fee),
            protocol_fee_amount,
        },
    )
}

} // verus!
