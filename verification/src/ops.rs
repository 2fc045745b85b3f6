use vstd::prelude::*;

use crate::coverage::calculate_coverage_ratio;
use crate::coverage::coverage_ratio_of;
use crate::errors::CustomError;
use crate::events::DepositEvent;
use crate::events::TradeEvent;
use crate::events::WithdrawalEvent;
use crate::gate::calculate_withdrawable;
use crate::gate::lemma_profit_component_bounds;
use crate::gate::profit_component_of;
use crate::gate::withdrawable_of;
use crate::state::State;
use crate::state::StateResponse;
use crate::state::UserAccount;

verus! {

/// Saturating subtraction on the mathematical integers: floors at zero.
pub open spec fn sat_sub(a: int, b: int) -> int {
    if a - b >= 0 {
        a - b
    } else {
        0
    }
}

/// What `i64` saturating addition yields: the exact sum, clamped to the
/// representable range.
pub open spec fn sat_add_i64(a: i64, b: i64) -> i64 {
    if a + b > i64::MAX {
        i64::MAX
    } else if a + b < i64::MIN {
        i64::MIN
    } else {
        (a + b) as i64
    }
}

/// `total_pnl` after a PnL update for one participant. If the participant's
/// PnL was positive and the change is negative, the erased portion of the
/// prior positive contribution leaves the sum first (capped at the sum
/// itself); then, if the new PnL crossed from non-positive to positive, the
/// whole new value enters the sum. The raw signed delta is never added.
pub open spec fn total_pnl_after_update(old_pnl: i64, pnl_change: i64, total_pnl: u64) -> int {
    let reduced = if old_pnl > 0 && pnl_change < 0 {
        sat_sub(total_pnl as int, -(pnl_change as int))
    } else {
        total_pnl as int
    };
    let new_pnl = sat_add_i64(old_pnl, pnl_change);
    if new_pnl > 0 && old_pnl <= 0 {
        reduced + new_pnl
    } else {
        reduced
    }
}

/// The slice of a withdrawal that comes out of principal: the requested
/// amount, capped at the participant's capital.
pub open spec fn capital_withdrawn_of(amount: u64, capital: u64) -> u64 {
    if amount <= capital {
        amount
    } else {
        capital
    }
}

/// The slice of a withdrawal that comes out of profit: what is left of the
/// request after the principal slice, capped at the collateralized fraction
/// of the participant's positive PnL.
pub open spec fn profit_withdrawn_of(amount: u64, capital: u64, pnl: i64, coverage_ratio_bps: u16) -> int {
    let remaining = amount - capital_withdrawn_of(amount, capital);
    if remaining > 0 && pnl > 0 {
        let max_profit = profit_component_of(pnl, coverage_ratio_bps);
        if remaining <= max_profit {
            remaining
        } else {
            max_profit
        }
    } else {
        0
    }
}

/// Read-only projection of the five global aggregates.
pub open spec fn spec_state_response(state: State) -> StateResponse {
    StateResponse {
        vault_balance: state.vault_balance,
        insurance_fund: state.insurance_fund,
        total_capital: state.total_capital,
        total_pnl: state.total_pnl,
        coverage_ratio_bps: state.coverage_ratio_bps,
    }
}

/// `i64` saturating addition, written out so that its result is pinned to
/// `sat_add_i64`.
fn saturating_add_i64(a: i64, b: i64) -> (sum: i64)
    ensures
        sum == sat_add_i64(a, b),
{
    match a.checked_add(b) {
        Some(v) => v,
        None => if b > 0 {
            i64::MAX
        } else {
            i64::MIN
        },
    }
}

/// A fresh ledger for a new venue: empty vault, no principal, no profit
/// claims, fully covered, administered by `authority`.
pub fn initialize(authority: u64) -> (state: State)
    ensures
        state.vault_balance == 0,
        state.insurance_fund == 0,
        state.total_capital == 0,
        state.total_pnl == 0,
        state.coverage_ratio_bps == 10000,
        state.authority == authority,
        state.wf(),
{
    State {
        vault_balance: 0,
        insurance_fund: 0,
        total_capital: 0,
        total_pnl: 0,
        coverage_ratio_bps: 10000,
        authority,
    }
}

/// Refresh the global coverage ratio from the current aggregates. Everything
/// but `coverage_ratio_bps` is left untouched.
pub fn update_coverage_ratio(state: &mut State)
    ensures
        final(state).coverage_ratio_bps == coverage_ratio_of(
            old(state).vault_balance,
            old(state).total_capital,
            old(state).insurance_fund,
            old(state).total_pnl,
        ),
        final(state).wf(),
        final(state).vault_balance == old(state).vault_balance,
        final(state).insurance_fund == old(state).insurance_fund,
        final(state).total_capital == old(state).total_capital,
        final(state).total_pnl == old(state).total_pnl,
        final(state).authority == old(state).authority,
{
    state.coverage_ratio_bps = calculate_coverage_ratio(
        state.vault_balance,
        state.total_capital,
        state.insurance_fund,
        state.total_pnl,
    );
}

/// Deposit `amount` of collateral for one participant.
///
/// A zero amount is rejected with `InvalidAmount` and nothing changes.
/// Otherwise the vault, the aggregate principal and the participant's
/// capital each grow by exactly `amount`, and the coverage ratio is
/// recomputed from the new aggregates. The bounds in `requires` are machine
/// limits on the `u64` fields.
pub fn deposit(state: &mut State, user: &mut UserAccount, amount: u64) -> (result: Result<
    DepositEvent,
    CustomError,
>)
    requires
        amount > 0 ==> old(state).total_capital + amount <= u64::MAX,
        amount > 0 ==> old(state).vault_balance + amount <= u64::MAX,
        amount > 0 ==> old(user).capital + amount <= u64::MAX,
    ensures
        amount == 0 ==> result == Err::<DepositEvent, CustomError>(CustomError::InvalidAmount)
            && *final(state) == *old(state) && *final(user) == *old(user),
        amount > 0 ==> {
            &&& result == Ok::<DepositEvent, CustomError>(
                DepositEvent { user: old(user).owner, amount },
            )
            &&& final(state).total_capital == old(state).total_capital + amount
            &&& final(state).vault_balance == old(state).vault_balance + amount
            &&& final(user).capital == old(user).capital + amount
            &&& final(user).owner == old(user).owner
            &&& final(user).pnl == old(user).pnl
            &&& final(state).insurance_fund == old(state).insurance_fund
            &&& final(state).total_pnl == old(state).total_pnl
            &&& final(state).authority == old(state).authority
            &&& final(state).coverage_ratio_bps == coverage_ratio_of(
                final(state).vault_balance,
                final(state).total_capital,
                final(state).insurance_fund,
                final(state).total_pnl,
            )
            &&& final(state).wf()
        },
{
    if amount == 0 {
        return Err(CustomError::InvalidAmount);
    }

    state.total_capital = state.total_capital + amount;
    state.vault_balance = state.vault_balance + amount;
    user.capital = user.capital + amount;

    update_coverage_ratio(state);

    Ok(DepositEvent { user: user.owner, amount })
}

/// Apply a signed PnL change to one participant and keep `total_pnl` — the
/// sum of the currently positive PnL values — consistent with it.
///
/// The participant's PnL moves by saturating addition. `total_pnl` first
/// loses the erased part of a previously positive contribution (when a
/// positive PnL takes a negative change), then gains the whole new PnL when
/// it crosses from non-positive to positive. The coverage ratio is
/// recomputed from the new aggregates. The bound in `requires` is the `u64`
/// machine limit on the crossing increment.
pub fn update_pnl(state: &mut State, user: &mut UserAccount, pnl_change: i64) -> (event:
    TradeEvent)
    requires
        (old(user).pnl <= 0 && sat_add_i64(old(user).pnl, pnl_change) > 0) ==> old(
            state,
        ).total_pnl + sat_add_i64(old(user).pnl, pnl_change) <= u64::MAX,
    ensures
        final(user).pnl == sat_add_i64(old(user).pnl, pnl_change),
        final(user).owner == old(user).owner,
        final(user).capital == old(user).capital,
        final(state).total_pnl == total_pnl_after_update(
            old(user).pnl,
            pnl_change,
            old(state).total_pnl,
        ),
        final(state).vault_balance == old(state).vault_balance,
        final(state).insurance_fund == old(state).insurance_fund,
        final(state).total_capital == old(state).total_capital,
        final(state).authority == old(state).authority,
        final(state).coverage_ratio_bps == coverage_ratio_of(
            final(state).vault_balance,
            final(state).total_capital,
            final(state).insurance_fund,
            final(state).total_pnl,
        ),
        final(state).wf(),
        event == (TradeEvent { user: old(user).owner, pnl_change }),
{
    if user.pnl > 0 && pnl_change < 0 {
        let magnitude: u64 = (-(pnl_change as i128)) as u64;
        let reduction: u64 = if magnitude <= state.total_pnl {
            magnitude
        } else {
            state.total_pnl
        };
        state.total_pnl = state.total_pnl - reduction;
    }

    let old_pnl: i64 = user.pnl;
    user.pnl = saturating_add_i64(user.pnl, pnl_change);

    if user.pnl > 0 && old_pnl <= 0 {
        state.total_pnl = state.total_pnl + (user.pnl as u64);
    }

    update_coverage_ratio(state);

    TradeEvent { user: user.owner, pnl_change }
}

/// Withdraw `amount` of collateral for one participant.
///
/// A zero amount is rejected with `InvalidAmount`; a request beyond the
/// withdrawable cap (principal plus the collateralized fraction of positive
/// PnL) is rejected with `InsufficientBalance`; either rejection leaves the
/// ledger untouched. Otherwise the request is split — principal first, then
/// rationed profit — the vault loses the full requested amount once, and the
/// coverage ratio is recomputed. The bound in `requires` is the `u64`
/// machine limit on the withdrawable sum.
pub fn withdraw(state: &mut State, user: &mut UserAccount, amount: u64) -> (result: Result<
    WithdrawalEvent,
    CustomError,
>)
    requires
        old(state).wf(),
        amount > 0 ==> withdrawable_of(
            old(user).capital,
            old(user).pnl,
            old(state).coverage_ratio_bps,
        ) <= u64::MAX,
    ensures
        amount == 0 ==> result == Err::<WithdrawalEvent, CustomError>(CustomError::InvalidAmount)
            && *final(state) == *old(state) && *final(user) == *old(user),
        (amount > 0 && amount > withdrawable_of(
            old(user).capital,
            old(user).pnl,
            old(state).coverage_ratio_bps,
        )) ==> result == Err::<WithdrawalEvent, CustomError>(CustomError::InsufficientBalance)
            && *final(state) == *old(state) && *final(user) == *old(user),
        (amount > 0 && amount <= withdrawable_of(
            old(user).capital,
            old(user).pnl,
            old(state).coverage_ratio_bps,
        )) ==> {
            let capital_out = capital_withdrawn_of(amount, old(user).capital);
            let profit_out = profit_withdrawn_of(
                amount,
                old(user).capital,
                old(user).pnl,
                old(state).coverage_ratio_bps,
            );
            &&& result == Ok::<WithdrawalEvent, CustomError>(
                WithdrawalEvent { user: old(user).owner, amount },
            )
            &&& final(user).capital == old(user).capital - capital_out
            &&& final(state).total_capital == sat_sub(
                old(state).total_capital as int,
                capital_out as int,
            )
            &&& final(user).pnl == old(user).pnl - profit_out
            &&& final(state).total_pnl == sat_sub(old(state).total_pnl as int, profit_out)
            &&& final(state).vault_balance == sat_sub(
                old(state).vault_balance as int,
                amount as int,
            )
            &&& final(state).insurance_fund == old(state).insurance_fund
            &&& final(state).authority == old(state).authority
            &&& final(user).owner == old(user).owner
            &&& final(state).coverage_ratio_bps == coverage_ratio_of(
                final(state).vault_balance,
                final(state).total_capital,
                final(state).insurance_fund,
                final(state).total_pnl,
            )
            &&& final(state).wf()
        },
{
    if amount == 0 {
        return Err(CustomError::InvalidAmount);
    }

    let withdrawable: u64 = calculate_withdrawable(user.capital, user.pnl, state.coverage_ratio_bps);

    if amount > withdrawable {
        return Err(CustomError::InsufficientBalance);
    }

    let capital_withdrawn: u64 = if amount <= user.capital {
        amount
    } else {
        user.capital
    };
    user.capital = user.capital - capital_withdrawn;
    state.total_capital = state.total_capital.saturating_sub(capital_withdrawn);

    let remaining: u64 = amount - capital_withdrawn;
    if remaining > 0 && user.pnl > 0 {
        proof {
            lemma_profit_component_bounds(user.pnl, state.coverage_ratio_bps);
        }
        let max_profit: u64 = (((user.pnl as u64 as u128) * (state.coverage_ratio_bps as u128))
            / 10000) as u64;
        let profit_withdrawn: u64 = if remaining <= max_profit {
            remaining
        } else {
            max_profit
        };
        user.pnl = user.pnl - (profit_withdrawn as i64);
        state.total_pnl = state.total_pnl.saturating_sub(profit_withdrawn);
    }

    state.vault_balance = state.vault_balance.saturating_sub(amount);

    update_coverage_ratio(state);

    Ok(WithdrawalEvent { user: user.owner, amount })
}

/// Grow the protocol-owned insurance buffer (and with it the vault) by
/// `amount`; no participant account is touched. A zero amount is rejected
/// with `InvalidAmount` and nothing changes. The bounds in `requires` are
/// machine limits on the `u64` fields.
pub fn add_insurance(state: &mut State, amount: u64) -> (result: Result<(), CustomError>)
    requires
        amount > 0 ==> old(state).insurance_fund + amount <= u64::MAX,
        amount > 0 ==> old(state).vault_balance + amount <= u64::MAX,
    ensures
        amount == 0 ==> result == Err::<(), CustomError>(CustomError::InvalidAmount)
            && *final(state) == *old(state),
        amount > 0 ==> {
            &&& result == Ok::<(), CustomError>(())
            &&& final(state).insurance_fund == old(state).insurance_fund + amount
            &&& final(state).vault_balance == old(state).vault_balance + amount
            &&& final(state).total_capital == old(state).total_capital
            &&& final(state).total_pnl == old(state).total_pnl
            &&& final(state).authority == old(state).authority
            &&& final(state).coverage_ratio_bps == coverage_ratio_of(
                final(state).vault_balance,
                final(state).total_capital,
                final(state).insurance_fund,
                final(state).total_pnl,
            )
            &&& final(state).wf()
        },
{
    if amount == 0 {
        return Err(CustomError::InvalidAmount);
    }

    state.insurance_fund = state.insurance_fund + amount;
    state.vault_balance = state.vault_balance + amount;

    update_coverage_ratio(state);

    Ok(())
}

/// Read-only snapshot of the five global aggregates; the ledger itself is
/// untouched, so two snapshots with no mutation in between are identical.
pub fn get_state(state: &State) -> (response: StateResponse)
    ensures
        response == spec_state_response(*state),
{
    StateResponse {
        vault_balance: state.vault_balance,
        insurance_fund: state.insurance_fund,
        total_capital: state.total_capital,
        total_pnl: state.total_pnl,
        coverage_ratio_bps: state.coverage_ratio_bps,
    }
}

} // verus!
