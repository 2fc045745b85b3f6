use vstd::prelude::*;

verus! {

/// Collateral left after principal and the insurance buffer are set aside:
/// `max(0, vault_balance - total_capital - insurance_fund)`. This is the pool
/// available to pay profit claims; the subtraction floors at zero so that
/// transient accounting states never underflow.
pub open spec fn residual_of(vault_balance: u64, total_capital: u64, insurance_fund: u64) -> int {
    if vault_balance - total_capital - insurance_fund >= 0 {
        vault_balance - total_capital - insurance_fund
    } else {
        0
    }
}

/// The coverage ratio, in basis points (0..=10000): the fraction of
/// `total_pnl` that the residual collateral can actually pay. With no
/// outstanding profit claims the ledger counts as fully covered; otherwise
/// the ratio is `floor(residual * 10000 / total_pnl)`, capped at 10000.
pub open spec fn coverage_ratio_of(
    vault_balance: u64,
    total_capital: u64,
    insurance_fund: u64,
    total_pnl: u64,
) -> int {
    if total_pnl == 0 {
        10000
    } else {
        let residual = residual_of(vault_balance, total_capital, insurance_fund);
        if residual >= total_pnl {
            10000
        } else {
            residual * 10000 / (total_pnl as int)
        }
    }
}

/// The coverage ratio is always a basis-point value: between 0 and 10000.
pub proof fn lemma_coverage_ratio_in_range(
    vault_balance: u64,
    total_capital: u64,
    insurance_fund: u64,
    total_pnl: u64,
)
    ensures
        0 <= coverage_ratio_of(vault_balance, total_capital, insurance_fund, total_pnl) <= 10000,
{
    let residual = residual_of(vault_balance, total_capital, insurance_fund);
    if total_pnl != 0 && residual < total_pnl {
        assert(residual * 10000 < total_pnl * 10000) by (nonlinear_arith)
            requires
                0 <= residual < total_pnl,
        ;
        vstd::arithmetic::div_mod::lemma_multiply_divide_lt(
            residual * 10000,
            total_pnl as int,
            10000,
        );
        vstd::arithmetic::div_mod::lemma_div_is_ordered(0, residual * 10000, total_pnl as int);
    }
}

/// If there are no outstanding profit claims, recomputation reports full
/// coverage.
pub proof fn lemma_zero_pnl_fully_covered(
    vault_balance: u64,
    total_capital: u64,
    insurance_fund: u64,
)
    ensures
        coverage_ratio_of(vault_balance, total_capital, insurance_fund, 0) == 10000,
{
}

/// Recompute the global coverage ratio from the four aggregate figures.
/// Pure: no side effects; called after every mutating operation with the
/// post-mutation aggregates.
pub fn calculate_coverage_ratio(
    vault_balance: u64,
    total_capital: u64,
    insurance_fund: u64,
    total_pnl: u64,
) -> (ratio: u16)
    ensures
        ratio == coverage_ratio_of(vault_balance, total_capital, insurance_fund, total_pnl),
        ratio <= 10000,
{
    proof {
        lemma_coverage_ratio_in_range(vault_balance, total_capital, insurance_fund, total_pnl);
    }
    if total_pnl == 0 {
        return 10000;
    }

    let residual: u64 = vault_balance.saturating_sub(total_capital).saturating_sub(insurance_fund);

    if residual >= total_pnl {
        return 10000;
    }

    (((residual as u128) * 10000) / (total_pnl as u128)) as u16
}

} // verus!
