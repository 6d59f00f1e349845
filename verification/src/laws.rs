//! The engine's global guarantees, stated and proved once over the same
//! spec functions that the operations' contracts use.

use vstd::prelude::*;

use crate::broker::{spec_close_succeeds, spec_debt_amount, spec_reserve_return, Broker};
use crate::controller::spec_protocol_cut;
use crate::denoms::{Base, Rcpt};
use crate::math::{Decimal, Rate};
use crate::rates::Rates;
use crate::reserve::{spec_request_outcome, State, Whitelist};
use crate::Addr;

verus! {

/// Pricing identity: what the unstaker is paid plus the whole fee equals
/// the unbonded amount valued at the provider's redemption rate — exactly,
/// for every input, whether or not the pool could cover the worst case.
/// `Broker::offer` returns exactly these quantities.
pub proof fn lemma_pricing_identity(broker: Broker, rates: Rates, ask: int, available_rcpt: int)
    ensures
        broker.spec_offer_amount(rates, ask, available_rcpt) + broker.spec_total_fee(
            rates,
            ask,
            available_rcpt,
        ) == broker.spec_value(rates, ask),
{
}

/// Worst-case coverage: the pool's earmarked capital and the fee charged
/// together always cover the worst-case interest requirement plus the
/// base interest — clamping moves cost to the fee, never drops it.
pub proof fn lemma_worst_case_covered(broker: Broker, rates: Rates, ask: int, available_rcpt: int)
    ensures
        broker.spec_allocation(rates, ask, available_rcpt) + broker.spec_total_fee(
            rates,
            ask,
            available_rcpt,
        ) == broker.spec_reserve_requirement(rates, ask) + broker.spec_fee_base(rates, ask),
{
}

/// Reserve sufficiency dominance: an offer never earmarks more pool
/// capital than the pool has available at the time of the offer.
pub proof fn lemma_reserve_sufficiency(broker: Broker, rates: Rates, ask: int, available_rcpt: int)
    ensures
        broker.spec_allocation(rates, ask, available_rcpt) <= broker.spec_reserve_available(
            rates,
            available_rcpt,
        ),
{
}

/// Solvency: whenever a settlement goes through — `Broker::close_offer`
/// returns `Ok` exactly when `spec_close_succeeds` holds — the debt owed
/// to the vault never exceeds the funds that came back, and repaying it
/// in full leaves a non-negative remainder for the reserve and the
/// protocol.
pub proof fn lemma_solvency(rates: Rates, debt_tokens: int, returned: int)
    requires
        spec_close_succeeds(rates, debt_tokens, returned),
    ensures
        spec_debt_amount(rates, debt_tokens) <= returned,
        returned - spec_debt_amount(rates, debt_tokens) >= 0,
{
}

/// Conservation at settlement: the debt repayment, the recovered reserve
/// capital, the protocol's cut and the pool's share of the revenue sum to
/// the returned funds exactly — no value leaks and none is duplicated.
/// `controller::complete` returns exactly these four parts, the last two
/// folded into its reserve and protocol outputs.
pub proof fn lemma_conservation(
    rates: Rates,
    protocol_fee: Decimal,
    debt_tokens: int,
    returned: int,
    alloc: int,
)
    requires
        spec_debt_amount(rates, debt_tokens) <= returned,
    ensures
        ({
            let debt = spec_debt_amount(rates, debt_tokens);
            let recovered = spec_reserve_return(alloc, returned - debt);
            let fee_amount = returned - debt - recovered;
            let protocol = spec_protocol_cut(fee_amount, protocol_fee);
            debt + recovered + protocol + (fee_amount - protocol) == returned
        }),
{
}

/// Monotonic pool limit: whenever `request_reserves` succeeds for a
/// controller with a credit limit, the controller's new outstanding
/// balance — its old balance plus the request, per that operation's
/// contract — stays at or under the limit.
pub proof fn lemma_controller_limit(
    whitelist: Whitelist,
    state: State,
    sender: Addr,
    requested: int,
    ghost_rate: Rate<Base, Rcpt>,
)
    requires
        spec_request_outcome(whitelist, state, sender, requested, ghost_rate) is Ok,
    ensures
        whitelist.spec_at(sender.id).limit matches Some(l) ==> whitelist.spec_at(
            sender.id,
        ).lent.amount + requested <= l.amount,
{
}

} // verus!
