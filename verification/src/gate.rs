use vstd::prelude::*;

verus! {

/// The collateralized fraction of a participant's positive PnL:
/// `floor(pnl * coverage_ratio_bps / 10000)` when `pnl > 0`, else 0.
pub open spec fn profit_component_of(pnl: i64, coverage_ratio_bps: u16) -> int {
    if pnl > 0 {
        pnl * coverage_ratio_bps / 10000
    } else {
        0
    }
}

/// The most a participant may withdraw: the whole principal (capital is
/// always fully backed) plus the currently collateralized fraction of any
/// positive PnL.
pub open spec fn withdrawable_of(capital: u64, pnl: i64, coverage_ratio_bps: u16) -> int {
    capital + profit_component_of(pnl, coverage_ratio_bps)
}

/// With a genuine basis-point ratio the rationed profit never exceeds the
/// positive PnL itself (and is never negative).
pub proof fn lemma_profit_component_bounds(pnl: i64, coverage_ratio_bps: u16)
    requires
        coverage_ratio_bps <= 10000,
    ensures
        0 <= profit_component_of(pnl, coverage_ratio_bps),
        pnl > 0 ==> profit_component_of(pnl, coverage_ratio_bps) <= pnl,
{
    if pnl > 0 {
        assert(pnl * coverage_ratio_bps <= pnl * 10000) by (nonlinear_arith)
            requires
                0 < pnl,
                coverage_ratio_bps <= 10000,
        ;
        vstd::arithmetic::div_mod::lemma_multiply_divide_le(
            pnl * coverage_ratio_bps,
            10000,
            pnl as int,
        );
        assert(pnl * coverage_ratio_bps >= 0) by (nonlinear_arith)
            requires
                0 < pnl,
                0 <= coverage_ratio_bps,
        ;
        vstd::arithmetic::div_mod::lemma_div_is_ordered(0, pnl * coverage_ratio_bps, 10000);
    }
}

/// Cap on a withdrawal request: principal plus the rationed profit claim.
///
/// The bound on the sum is a machine limit: the ledger's own operations keep
/// the ratio within basis points, under which the profit component fits
/// alongside any representable capital that a real vault could have paid.
pub fn calculate_withdrawable(capital: u64, pnl: i64, coverage_ratio_bps: u16) -> (limit: u64)
    requires
        coverage_ratio_bps <= 10000,
        withdrawable_of(capital, pnl, coverage_ratio_bps) <= u64::MAX,
    ensures
        limit == withdrawable_of(capital, pnl, coverage_ratio_bps),
{
    proof {
        lemma_profit_component_bounds(pnl, coverage_ratio_bps);
    }
    let profit: u64 = if pnl > 0 {
        (((pnl as u64 as u128) * (coverage_ratio_bps as u128)) / 10000) as u64
    } else {
        0
    };
    capital + profit
}

} // verus!
