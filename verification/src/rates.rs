//! The rate snapshot read at the moment of pricing or settlement.

use vstd::prelude::*;

use crate::denoms::{Ask, Base, Debt, Rcpt};
use crate::math::{Decimal, Rate};

verus! {

/// The four market numbers the broker prices and settles against, read from
/// the lending vault and the unbonding provider by the surrounding system.
#[derive(Clone, Copy, Debug)]
pub struct Rates {
    /// Underlying value of one debt-accounting token; grows as interest accrues.
    pub vault_debt: Rate<Base, Debt>,
    /// Underlying value of one vault receipt token.
    pub vault_deposit: Rate<Base, Rcpt>,
    /// The vault's current lending rate, per year.
    pub vault_interest: Decimal,
    /// The highest lending rate the vault can reach, per year.
    pub vault_max_interest: Decimal,
    /// Underlying value of one staked token at the unbonding provider.
    pub provider_redemption: Rate<Base, Ask>,
}

impl Rates {
    pub open spec fn wf(&self) -> bool {
        &&& self.vault_debt.wf()
        &&& self.vault_deposit.wf()
        &&& self.provider_redemption.wf()
    }

    pub fn new(
        vault_debt: Rate<Base, Debt>,
        vault_deposit: Rate<Base, Rcpt>,
        vault_interest: Decimal,
        vault_max_interest: Decimal,
        provider_redemption: Rate<Base, Ask>,
    ) -> (r: Rates)
        ensures
            r == (Rates {
                vault_debt,
                vault_deposit,
                vault_interest,
                vault_max_interest,
                provider_redemption,
            }),
    {
        Rates { vault_debt, vault_deposit, vault_interest, vault_max_interest, provider_redemption }
    }
}

} // verus!
