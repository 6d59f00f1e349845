//! The pooled-capital solvency buffer.
//!
//! Liquidity providers fund the pool and receive shares; whitelisted
//! controllers draw capital against per-controller credit limits and later
//! return it. Realised profit or loss on returned capital moves the pool's
//! share redemption ratio, so every holder absorbs it proportionally.
//!
//! Pool capital at rest sits in the lending vault: `available` is held in
//! vault receipt tokens, while `deployed` counts what is out with
//! controllers, in the base token.

use vstd::prelude::*;

use crate::denoms::{Base, Rcpt, Rsv};
use crate::error::ContractError;
use crate::math::{div_up, frac, AmountU128, Decimal, Rate, DECIMAL_FRACTIONAL_SQUARED};
use crate::Addr;

verus! {

/// What the reserve pool reports to a broker at pricing time.
#[derive(Clone, Copy, Debug)]
pub struct StatusResponse {
    /// Total pool capital, in the base token.
    pub total: AmountU128<Base>,
    /// Capital currently lent out against in-flight offers, in the base token.
    pub deployed: AmountU128<Base>,
    /// Capital not currently deployed, in vault receipt tokens.
    pub available: AmountU128<Rcpt>,
    /// Conversion rate of pool shares to the base token.
    pub reserve_redemption_rate: Rate<Base, Rsv>,
}

/// The pool's persistent state.
#[derive(Clone, Copy, Debug)]
pub struct State {
    /// Capital currently lent out to controllers, in the base token.
    pub deployed: AmountU128<Base>,
    /// Capital resting in the lending vault, in vault receipt tokens.
    pub available: AmountU128<Rcpt>,
    /// Base-token value of one pool share; moves only on realised
    /// profit or loss of returned capital.
    pub reserve_redemption_ratio: Rate<Base, Rsv>,
}

/// The owner-controlled configuration of the pool.
#[derive(Clone, Copy, Debug)]
pub struct Config {
    /// The account allowed to manage the whitelist and this config.
    pub owner: Addr,
}

/// One whitelisted controller's credit record.
#[derive(Clone, Copy, Debug)]
pub struct WhitelistItem {
    pub controller: Addr,
    /// What the controller currently has outstanding.
    pub lent: AmountU128<Base>,
    /// Hard ceiling on `lent`, if one is set.
    pub limit: Option<AmountU128<Base>>,
}

/// The whitelist of controllers allowed to draw pool capital, with at most
/// one record per controller.
#[derive(Clone, Debug)]
pub struct Whitelist {
    pub items: Vec<WhitelistItem>,
}

impl State {
    pub fn new() -> (s: State)
        ensures
            s.deployed.amount == 0,
            s.available.amount == 0,
            s.reserve_redemption_ratio.dec.atomics == frac(),
            s.wf(),
    {
        let ratio = Rate::<Base, Rsv>::new(Decimal::one());
        State {
            deployed: AmountU128::zero(),
            available: AmountU128::zero(),
            reserve_redemption_ratio: ratio.unwrap(),
        }
    }

    /// The redemption ratio must stay positive for shares to be priceable.
    pub open spec fn wf(&self) -> bool {
        self.reserve_redemption_ratio.wf()
    }

    /// Total pool capital valued in the base token: what is deployed plus
    /// the base value of what rests in the vault.
    pub open spec fn spec_total_base(&self, ghost_rate: Rate<Base, Rcpt>) -> int {
        self.deployed.amount + self.available.amount * ghost_rate.dec.atomics / frac()
    }

    /// Report the pool's status at the given vault rate.
    pub fn status(&self, ghost_rate: Rate<Base, Rcpt>) -> (r: StatusResponse)
        requires
            self.available.amount * ghost_rate.dec.atomics <= u128::MAX,
            self.spec_total_base(ghost_rate) <= u128::MAX,
        ensures
            r.total.amount == self.spec_total_base(ghost_rate),
            r.deployed == self.deployed,
            r.available == self.available,
            r.reserve_redemption_rate == self.reserve_redemption_ratio,
    {
        let vault_value = self.available.mul_floor(&ghost_rate);
        StatusResponse {
            total: AmountU128::new(self.deployed.amount + vault_value.amount),
            deployed: self.deployed,
            available: self.available,
            reserve_redemption_rate: self.reserve_redemption_ratio,
        }
    }
}

impl Whitelist {
    pub fn new() -> (w: Whitelist)
        ensures
            w.items@.len() == 0,
            w.wf(),
    {
        Whitelist { items: Vec::new() }
    }

    /// No controller appears twice.
    pub open spec fn wf(&self) -> bool {
        forall|i: int, j: int|
            0 <= i < j < self.items@.len() ==> (#[trigger] self.items@[i]).controller.id != (
            #[trigger] self.items@[j]).controller.id
    }

    pub open spec fn spec_contains(&self, id: u64) -> bool {
        exists|i: int|
            0 <= i < self.items@.len() && (#[trigger] self.items@[i]).controller.id == id
    }

    /// The position of the controller's record; meaningful only when
    /// `spec_contains` holds.
    pub open spec fn spec_index(&self, id: u64) -> int {
        choose|i: int|
            0 <= i < self.items@.len() && (#[trigger] self.items@[i]).controller.id == id
    }

    /// The controller's record; meaningful only when `spec_contains` holds.
    pub open spec fn spec_at(&self, id: u64) -> WhitelistItem {
        self.items@[self.spec_index(id)]
    }

    /// In a well-formed whitelist, any position holding `id` is the one
    /// `spec_index` denotes.
    pub proof fn lemma_index_unique(&self, i: int, id: u64)
        requires
            self.wf(),
            0 <= i < self.items@.len(),
            self.items@[i].controller.id == id,
        ensures
            self.spec_contains(id),
            self.spec_index(id) == i,
    {
        assert(self.spec_contains(id));
        let j = self.spec_index(id);
        assert(0 <= j < self.items@.len() && self.items@[j].controller.id == id);
        if i < j {
            assert(self.items@[i].controller.id != self.items@[j].controller.id);
        } else if j < i {
            assert(self.items@[j].controller.id != self.items@[i].controller.id);
        }
    }

    /// Where the controller's record sits, if it has one.
    fn find_index(&self, id: u64) -> (r: Option<usize>)
        ensures
            r matches Some(i) ==> i < self.items@.len() && self.items@[i as int].controller.id
                == id,
            r is None ==> forall|j: int|
                0 <= j < self.items@.len() ==> (#[trigger] self.items@[j]).controller.id != id,
    {
        let mut i: usize = 0;
        while i < self.items.len()
            invariant
                i <= self.items@.len(),
                forall|j: int| 0 <= j < i ==> (#[trigger] self.items@[j]).controller.id != id,
            decreases self.items@.len() - i,
        {
            if self.items[i].controller.id == id {
                return Some(i);
            }
            i = i + 1;
        }
        None
    }

    /// The controller's credit record, if it is whitelisted.
    pub fn lookup(&self, controller: Addr) -> (r: Option<WhitelistItem>)
        requires
            self.wf(),
        ensures
            r is Some <==> self.spec_contains(controller.id),
            r matches Some(item) ==> item == self.spec_at(controller.id),
    {
        match self.find_index(controller.id) {
            Some(i) => {
                proof {
                    self.lemma_index_unique(i as int, controller.id);
                }
                Some(self.items[i])
            },
            None => None,
        }
    }

    /// Put a controller on the whitelist with the given limit. An
    /// already-listed controller keeps what it has lent; only its limit is
    /// replaced.
    pub fn upsert(&mut self, controller: Addr, limit: Option<AmountU128<Base>>)
        requires
            old(self).wf(),
        ensures
            final(self).wf(),
            final(self).spec_contains(controller.id),
            old(self).spec_contains(controller.id) ==> final(self).items@ == old(
                self,
            ).items@.update(
                old(self).spec_index(controller.id),
                WhitelistItem {
                    controller: old(self).spec_at(controller.id).controller,
                    lent: old(self).spec_at(controller.id).lent,
                    limit,
                },
            ),
            !old(self).spec_contains(controller.id) ==> final(self).items@ == old(
                self,
            ).items@.push(WhitelistItem { controller, lent: AmountU128::spec_new(0), limit }),
    {
        match self.find_index(controller.id) {
            Some(i) => {
                proof {
                    self.lemma_index_unique(i as int, controller.id);
                }
                let kept = self.items[i];
                self.items.set(
                    i,
                    WhitelistItem { controller: kept.controller, lent: kept.lent, limit },
                );
                proof {
                    assert(self.items@[i as int].controller.id == controller.id);
                }
            },
            None => {
                self.items.push(WhitelistItem { controller, lent: AmountU128::zero(), limit });
                proof {
                    let n = old(self).items@.len() as int;
                    assert(self.items@[n].controller.id == controller.id);
                }
            },
        }
    }

    /// Strike a controller from the whitelist; absent controllers are left
    /// as they are.
    pub fn strike(&mut self, controller: Addr)
        requires
            old(self).wf(),
        ensures
            final(self).wf(),
            !final(self).spec_contains(controller.id),
            old(self).spec_contains(controller.id) ==> final(self).items@ == old(
                self,
            ).items@.remove(old(self).spec_index(controller.id)),
            !old(self).spec_contains(controller.id) ==> final(self).items@ == old(self).items@,
    {
        match self.find_index(controller.id) {
            Some(i) => {
                proof {
                    self.lemma_index_unique(i as int, controller.id);
                }
                self.items.remove(i);
                proof {
                    old(self).items@.remove_ensures(i as int);
                    assert forall|j: int| 0 <= j < self.items@.len() implies (
                    #[trigger] self.items@[j]).controller.id != controller.id by {
                        if j < i {
                            assert(self.items@[j] == old(self).items@[j]);
                        } else {
                            assert(self.items@[j] == old(self).items@[j + 1]);
                        }
                    }
                }
            },
            None => {},
        }
    }

    /// Replace the credit record at the controller's position.
    fn set_record(&mut self, i: usize, item: WhitelistItem)
        requires
            old(self).wf(),
            i < old(self).items@.len(),
            item.controller == old(self).items@[i as int].controller,
        ensures
            final(self).wf(),
            final(self).items@ == old(self).items@.update(i as int, item),
    {
        self.items.set(i, item);
    }
}

/// Receipt tokens received when `amount` of the base token is deposited
/// into the vault at `ghost_rate`, rounded down.
pub open spec fn spec_fund_received(amount: int, ghost_rate: Rate<Base, Rcpt>) -> int {
    amount * frac() / ghost_rate.dec.atomics as int
}

/// Pool shares minted for a deposit of `amount`, at the pool's redemption
/// ratio, rounded down.
pub open spec fn spec_fund_minted(amount: int, ratio: Rate<Base, Rsv>) -> int {
    amount * frac() / ratio.dec.atomics as int
}

/// Receipt tokens that one pool share redeems for: the redemption ratio
/// converted through the inverse vault rate, truncated to 18 decimals.
pub open spec fn spec_withdraw_rate(ghost_rate: Rate<Base, Rcpt>, ratio: Rate<Base, Rsv>) -> int {
    (DECIMAL_FRACTIONAL_SQUARED as int / ghost_rate.dec.atomics as int) * ratio.dec.atomics
        / frac()
}

/// Receipt tokens that must leave the vault for a withdrawal of `shares`,
/// rounded up to favor the pool.
pub open spec fn spec_withdraw_required(
    shares: int,
    ghost_rate: Rate<Base, Rcpt>,
    ratio: Rate<Base, Rsv>,
) -> int {
    div_up(shares * spec_withdraw_rate(ghost_rate, ratio), frac())
}

/// Base tokens paid out for the withdrawn receipt tokens, rounded down.
pub open spec fn spec_withdraw_payout(
    shares: int,
    ghost_rate: Rate<Base, Rcpt>,
    ratio: Rate<Base, Rsv>,
) -> int {
    spec_withdraw_required(shares, ghost_rate, ratio) * ghost_rate.dec.atomics / frac()
}

/// Receipt tokens that must leave the vault to pay out `requested` base
/// tokens, rounded up to favor the pool.
pub open spec fn spec_request_required(requested: int, ghost_rate: Rate<Base, Rcpt>) -> int {
    div_up(requested * frac(), ghost_rate.dec.atomics as int)
}

/// How the redemption ratio moves when `received` comes back against an
/// original amount: the absolute profit or loss spread over the whole pool.
pub open spec fn spec_ratio_delta(original: int, received: int, total_base: int) -> int {
    (if original >= received {
        original - received
    } else {
        received - original
    }) * frac() / total_base
}

/// The exact outcome of `request_reserves`, checked in the order the
/// operation checks them.
pub open spec fn spec_request_outcome(
    whitelist: Whitelist,
    state: State,
    sender: Addr,
    requested: int,
    ghost_rate: Rate<Base, Rcpt>,
) -> Result<(), ContractError> {
    if !whitelist.spec_contains(sender.id) {
        Err(ContractError::Unauthorized {})
    } else if requested == 0 {
        Err(ContractError::RequestZero {})
    } else if whitelist.spec_at(sender.id).lent.amount + requested > u128::MAX {
        Err(ContractError::Monetary {})
    } else if whitelist.spec_at(sender.id).limit matches Some(l) && whitelist.spec_at(
        sender.id,
    ).lent.amount + requested > l.amount {
        Err(ContractError::ControllerLimitExceeded {})
    } else if spec_request_required(requested, ghost_rate) > state.available.amount {
        Err(ContractError::InsufficentReserves {})
    } else {
        Ok(())
    }
}

/// The exact outcome of `return_reserves`, checked in the order the
/// operation checks them.
pub open spec fn spec_return_outcome(
    whitelist: Whitelist,
    state: State,
    sender: Addr,
    original: int,
    received: int,
    ghost_rate: Rate<Base, Rcpt>,
) -> Result<(), ContractError> {
    let ratio = state.reserve_redemption_ratio.dec.atomics as int;
    let delta = spec_ratio_delta(original, received, state.spec_total_base(ghost_rate));
    if !whitelist.spec_contains(sender.id) {
        Err(ContractError::Unauthorized {})
    } else if received == 0 {
        Err(ContractError::Payment {})
    } else if original > whitelist.spec_at(sender.id).lent.amount {
        Err(ContractError::Monetary {})
    } else if received < original && delta > ratio {
        Err(ContractError::Monetary {})
    } else if received > original && ratio + delta > u128::MAX {
        Err(ContractError::Monetary {})
    } else {
        Ok(())
    }
}

/// Deposit `amount` of the base token into the pool.
///
/// The capital is placed into the lending vault at `ghost_rate`; the caller
/// is owed the returned number of freshly minted pool shares, priced at the
/// pool's redemption ratio. A zero deposit is refused.
pub fn fund(state: &mut State, amount: AmountU128<Base>, ghost_rate: Rate<Base, Rcpt>) -> (r:
    Result<AmountU128<Rsv>, ContractError>)
    requires
        old(state).wf(),
        ghost_rate.wf(),
        amount.amount * frac() <= u128::MAX,
        old(state).available.amount + spec_fund_received(amount.amount as int, ghost_rate)
            <= u128::MAX,
    ensures
        final(state).wf(),
        amount.amount == 0 ==> r == Err::<AmountU128<Rsv>, ContractError>(
            ContractError::Payment {},
        ) && *final(state) == *old(state),
        amount.amount > 0 ==> {
            &&& r matches Ok(minted) && minted.amount == spec_fund_minted(
                amount.amount as int,
                old(state).reserve_redemption_ratio,
            )
            &&& final(state).available.amount == old(state).available.amount + spec_fund_received(
                amount.amount as int,
                ghost_rate,
            )
            &&& final(state).deployed == old(state).deployed
            &&& final(state).reserve_redemption_ratio == old(state).reserve_redemption_ratio
        },
{
    if amount.is_zero() {
        return Err(ContractError::Payment {});
    }
    let received = amount.div_floor(&ghost_rate);
    state.available = AmountU128::new(state.available.amount + received.amount);
    let minted = amount.div_floor(&state.reserve_redemption_ratio);
    Ok(minted)
}

/// Redeem `reserve_amount` pool shares for the base token.
///
/// The shares' value is taken out of the vault; the pool is debited the
/// receipt tokens (rounded up, in its own favor) and the caller is owed the
/// returned base amount. Fails with `InsufficentFunds` when the pool's
/// liquid capital cannot cover the withdrawal.
pub fn withdraw(
    state: &mut State,
    reserve_amount: AmountU128<Rsv>,
    ghost_rate: Rate<Base, Rcpt>,
) -> (r: Result<AmountU128<Base>, ContractError>)
    requires
        old(state).wf(),
        ghost_rate.wf(),
        (DECIMAL_FRACTIONAL_SQUARED as int / ghost_rate.dec.atomics as int) * old(
            state,
        ).reserve_redemption_ratio.dec.atomics <= u128::MAX,
        reserve_amount.amount * spec_withdraw_rate(ghost_rate, old(state).reserve_redemption_ratio)
            <= u128::MAX,
        spec_withdraw_required(
            reserve_amount.amount as int,
            ghost_rate,
            old(state).reserve_redemption_ratio,
        ) * ghost_rate.dec.atomics <= u128::MAX,
    ensures
        final(state).wf(),
        reserve_amount.amount == 0 ==> r == Err::<AmountU128<Base>, ContractError>(
            ContractError::Payment {},
        ) && *final(state) == *old(state),
        reserve_amount.amount > 0 && spec_withdraw_required(
            reserve_amount.amount as int,
            ghost_rate,
            old(state).reserve_redemption_ratio,
        ) > old(state).available.amount ==> r == Err::<AmountU128<Base>, ContractError>(
            ContractError::InsufficentFunds {},
        ) && *final(state) == *old(state),
        reserve_amount.amount > 0 && spec_withdraw_required(
            reserve_amount.amount as int,
            ghost_rate,
            old(state).reserve_redemption_ratio,
        ) <= old(state).available.amount ==> {
            &&& r matches Ok(payout) && payout.amount == spec_withdraw_payout(
                reserve_amount.amount as int,
                ghost_rate,
                old(state).reserve_redemption_ratio,
            )
            &&& final(state).available.amount == old(state).available.amount
                - spec_withdraw_required(
                reserve_amount.amount as int,
                ghost_rate,
                old(state).reserve_redemption_ratio,
            )
            &&& final(state).deployed == old(state).deployed
            &&& final(state).reserve_redemption_ratio == old(state).reserve_redemption_ratio
        },
{
    if reserve_amount.is_zero() {
        return Err(ContractError::Payment {});
    }

    // One share is worth `ratio` base tokens; through the inverse vault
    // rate that is `inv(ghost) * ratio` receipt tokens, rounded up so that
    // rounding always favors the pool.
    let rate = ghost_rate.inv().mul_rate(&state.reserve_redemption_ratio);
    let required_liquidity = reserve_amount.mul_ceil(&rate);

    if state.available.amount < required_liquidity.amount {
        return Err(ContractError::InsufficentFunds {});
    }

    state.available = AmountU128::new(state.available.amount - required_liquidity.amount);
    let base_amount = required_liquidity.mul_floor(&ghost_rate);
    Ok(base_amount)
}

/// Hand `requested_amount` of pool capital to a whitelisted controller.
///
/// The caller must be whitelisted and stay within its credit limit, and the
/// pool must hold enough liquid capital; the receipt-token cost of the
/// request (rounded up, in the pool's favor) leaves `available` while the
/// request is added to `deployed` and to the controller's outstanding
/// balance. Nothing changes when any check fails.
pub fn request_reserves(
    state: &mut State,
    whitelist: &mut Whitelist,
    sender: Addr,
    requested_amount: AmountU128<Base>,
    ghost_rate: Rate<Base, Rcpt>,
) -> (r: Result<(), ContractError>)
    requires
        old(whitelist).wf(),
        ghost_rate.wf(),
        requested_amount.amount * frac() <= u128::MAX,
        old(state).deployed.amount + requested_amount.amount <= u128::MAX,
    ensures
        final(whitelist).wf(),
        r == spec_request_outcome(
            *old(whitelist),
            *old(state),
            sender,
            requested_amount.amount as int,
            ghost_rate,
        ),
        r is Err ==> *final(state) == *old(state) && final(whitelist).items@ == old(
            whitelist,
        ).items@,
        r is Ok ==> {
            &&& final(state).available.amount == old(state).available.amount
                - spec_request_required(requested_amount.amount as int, ghost_rate)
            &&& final(state).deployed.amount == old(state).deployed.amount
                + requested_amount.amount
            &&& final(state).reserve_redemption_ratio == old(state).reserve_redemption_ratio
            &&& final(whitelist).items@.len() == old(whitelist).items@.len()
            &&& (forall|j: int|
                0 <= j < old(whitelist).items@.len() && j != old(whitelist).spec_index(sender.id)
                    ==> final(whitelist).items@[j] == old(whitelist).items@[j])
            &&& final(whitelist).spec_at(sender.id).controller == old(whitelist).spec_at(
                sender.id,
            ).controller
            &&& final(whitelist).spec_at(sender.id).lent.amount == old(whitelist).spec_at(
                sender.id,
            ).lent.amount + requested_amount.amount
            &&& final(whitelist).spec_at(sender.id).limit == old(whitelist).spec_at(
                sender.id,
            ).limit
            &&& final(whitelist).spec_index(sender.id) == old(whitelist).spec_index(sender.id)
        },
{
    let i = match whitelist.find_index(sender.id) {
        Some(i) => i,
        None => {
            return Err(ContractError::Unauthorized {});
        },
    };
    proof {
        whitelist.lemma_index_unique(i as int, sender.id);
    }

    if requested_amount.is_zero() {
        return Err(ContractError::RequestZero {});
    }

    let entry = whitelist.items[i];
    let lent = match entry.lent.checked_add(requested_amount) {
        Some(l) => l,
        None => {
            return Err(ContractError::Monetary {});
        },
    };
    if let Some(limit) = entry.limit {
        if lent.amount > limit.amount {
            return Err(ContractError::ControllerLimitExceeded {});
        }
    }

    // The pool must hold enough liquid capital, valued in receipt tokens
    // and rounded up in its own favor.
    let required_liquidity = requested_amount.div_ceil(&ghost_rate);
    if required_liquidity.amount > state.available.amount {
        return Err(ContractError::InsufficentReserves {});
    }

    whitelist.set_record(
        i,
        WhitelistItem { controller: entry.controller, lent, limit: entry.limit },
    );
    state.available = AmountU128::new(state.available.amount - required_liquidity.amount);
    state.deployed = AmountU128::new(state.deployed.amount + requested_amount.amount);
    proof {
        whitelist.lemma_index_unique(i as int, sender.id);
    }
    Ok(())
}

/// Take back capital from a controller, and absorb the realised difference
/// into the pool's redemption ratio.
///
/// The controller's outstanding balance drops by `original_amount` while
/// `received` (what actually came back) is re-deposited into the vault. A
/// shortfall lowers the redemption ratio, a surplus raises it, spread over
/// the whole pool's base value; an exact return leaves it untouched.
/// Nothing changes when any check fails.
pub fn return_reserves(
    state: &mut State,
    whitelist: &mut Whitelist,
    sender: Addr,
    original_amount: AmountU128<Base>,
    received: AmountU128<Base>,
    ghost_rate: Rate<Base, Rcpt>,
) -> (r: Result<(), ContractError>)
    requires
        old(whitelist).wf(),
        ghost_rate.wf(),
        old(state).available.amount * ghost_rate.dec.atomics <= u128::MAX,
        old(state).spec_total_base(ghost_rate) > 0,
        old(state).spec_total_base(ghost_rate) <= u128::MAX,
        (if original_amount.amount >= received.amount {
            original_amount.amount - received.amount
        } else {
            received.amount - original_amount.amount
        }) * frac() <= u128::MAX,
        received.amount * frac() <= u128::MAX,
        old(state).available.amount + spec_fund_received(received.amount as int, ghost_rate)
            <= u128::MAX,
        original_amount.amount <= old(state).deployed.amount,
    ensures
        final(whitelist).wf(),
        r == spec_return_outcome(
            *old(whitelist),
            *old(state),
            sender,
            original_amount.amount as int,
            received.amount as int,
            ghost_rate,
        ),
        r is Err ==> *final(state) == *old(state) && final(whitelist).items@ == old(
            whitelist,
        ).items@,
        r is Ok ==> {
            let delta = spec_ratio_delta(
                original_amount.amount as int,
                received.amount as int,
                old(state).spec_total_base(ghost_rate),
            );
            &&& final(state).available.amount == old(state).available.amount + spec_fund_received(
                received.amount as int,
                ghost_rate,
            )
            &&& final(state).deployed.amount == old(state).deployed.amount
                - original_amount.amount
            &&& final(state).reserve_redemption_ratio.dec.atomics == if received.amount
                < original_amount.amount {
                old(state).reserve_redemption_ratio.dec.atomics - delta
            } else if received.amount > original_amount.amount {
                old(state).reserve_redemption_ratio.dec.atomics + delta
            } else {
                old(state).reserve_redemption_ratio.dec.atomics as int
            }
            &&& final(whitelist).items@.len() == old(whitelist).items@.len()
            &&& (forall|j: int|
                0 <= j < old(whitelist).items@.len() && j != old(whitelist).spec_index(sender.id)
                    ==> final(whitelist).items@[j] == old(whitelist).items@[j])
            &&& final(whitelist).spec_at(sender.id).controller == old(whitelist).spec_at(
                sender.id,
            ).controller
            &&& final(whitelist).spec_at(sender.id).lent.amount == old(whitelist).spec_at(
                sender.id,
            ).lent.amount - original_amount.amount
            &&& final(whitelist).spec_at(sender.id).limit == old(whitelist).spec_at(
                sender.id,
            ).limit
            &&& final(whitelist).spec_index(sender.id) == old(whitelist).spec_index(sender.id)
        },
{
    let i = match whitelist.find_index(sender.id) {
        Some(i) => i,
        None => {
            return Err(ContractError::Unauthorized {});
        },
    };
    proof {
        whitelist.lemma_index_unique(i as int, sender.id);
    }

    if received.is_zero() {
        return Err(ContractError::Payment {});
    }

    let entry = whitelist.items[i];
    let lent = match entry.lent.checked_sub(original_amount) {
        Some(l) => l,
        None => {
            return Err(ContractError::Monetary {});
        },
    };

    // Spread the realised profit or loss over the whole pool's base value.
    let vault_value = state.available.mul_floor(&ghost_rate);
    let total_base = AmountU128::<Base>::new(state.deployed.amount + vault_value.amount);
    let delta = Decimal::from_ratio(original_amount.abs_diff(received).amount, total_base.amount);

    let ratio = if received.amount < original_amount.amount {
        match state.reserve_redemption_ratio.sub_decimal(delta) {
            Some(r) => r,
            None => {
                return Err(ContractError::Monetary {});
            },
        }
    } else if received.amount > original_amount.amount {
        match state.reserve_redemption_ratio.add_decimal(delta) {
            Some(r) => r,
            None => {
                return Err(ContractError::Monetary {});
            },
        }
    } else {
        state.reserve_redemption_ratio
    };

    whitelist.set_record(
        i,
        WhitelistItem { controller: entry.controller, lent, limit: entry.limit },
    );

    // The returned capital goes back into the vault.
    let received_rcpt = received.div_floor(&ghost_rate);
    state.available = AmountU128::new(state.available.amount + received_rcpt.amount);
    state.deployed = AmountU128::new(state.deployed.amount - original_amount.amount);
    state.reserve_redemption_ratio = ratio;
    proof {
        whitelist.lemma_index_unique(i as int, sender.id);
    }
    Ok(())
}

/// Whitelist a controller, at the owner's request alone.
pub fn add_controller(
    config: &Config,
    whitelist: &mut Whitelist,
    sender: Addr,
    controller: Addr,
    limit: Option<AmountU128<Base>>,
) -> (r: Result<(), ContractError>)
    requires
        old(whitelist).wf(),
    ensures
        final(whitelist).wf(),
        r is Ok <==> sender.id == config.owner.id,
        r matches Err(e) ==> e == (ContractError::Unauthorized {}) && final(whitelist).items@
            == old(whitelist).items@,
        r is Ok ==> {
            &&& final(whitelist).spec_contains(controller.id)
            &&& old(whitelist).spec_contains(controller.id) ==> final(whitelist).items@ == old(
                whitelist,
            ).items@.update(
                old(whitelist).spec_index(controller.id),
                WhitelistItem {
                    controller: old(whitelist).spec_at(controller.id).controller,
                    lent: old(whitelist).spec_at(controller.id).lent,
                    limit,
                },
            )
            &&& !old(whitelist).spec_contains(controller.id) ==> final(whitelist).items@ == old(
                whitelist,
            ).items@.push(WhitelistItem { controller, lent: AmountU128::spec_new(0), limit })
        },
{
    if sender.id != config.owner.id {
        return Err(ContractError::Unauthorized {});
    }
    whitelist.upsert(controller, limit);
    Ok(())
}

/// Strike a controller from the whitelist, at the owner's request alone.
pub fn remove_controller(
    config: &Config,
    whitelist: &mut Whitelist,
    sender: Addr,
    controller: Addr,
) -> (r: Result<(), ContractError>)
    requires
        old(whitelist).wf(),
    ensures
        final(whitelist).wf(),
        r is Ok <==> sender.id == config.owner.id,
        r matches Err(e) ==> e == (ContractError::Unauthorized {}) && final(whitelist).items@
            == old(whitelist).items@,
        r is Ok ==> {
            &&& !final(whitelist).spec_contains(controller.id)
            &&& old(whitelist).spec_contains(controller.id) ==> final(whitelist).items@ == old(
                whitelist,
            ).items@.remove(old(whitelist).spec_index(controller.id))
            &&& !old(whitelist).spec_contains(controller.id) ==> final(whitelist).items@ == old(
                whitelist,
            ).items@
        },
{
    if sender.id != config.owner.id {
        return Err(ContractError::Unauthorized {});
    }
    whitelist.strike(controller);
    Ok(())
}

/// Replace the pool's owner, at the owner's request alone.
pub fn update_config(config: &mut Config, sender: Addr, owner: Option<Addr>) -> (r: Result<
    (),
    ContractError,
>)
    ensures
        r is Ok <==> sender.id == old(config).owner.id,
        r matches Err(e) ==> e == (ContractError::Unauthorized {}) && *final(config) == *old(
            config,
        ),
        r is Ok ==> final(config).owner == (if owner is Some {
            owner->0
        } else {
            old(config).owner
        }),
{
    if sender.id != config.owner.id {
        return Err(ContractError::Unauthorized {});
    }
    if let Some(owner) = owner {
        config.owner = owner;
    }
    Ok(())
}

} // verus!
