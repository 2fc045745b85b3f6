use vstd::prelude::*;

use crate::ops::sat_add_i64;
use crate::ops::spec_state_response;
use crate::ops::total_pnl_after_update;
use crate::state::State;
use crate::state::StateResponse;

verus! {

/// Reading the ledger is idempotent: two snapshots taken from the same
/// state, with no mutation in between, are identical.
pub proof fn lemma_get_state_idempotent(state: State, first: StateResponse, second: StateResponse)
    requires
        first == spec_state_response(state),
        second == spec_state_response(state),
    ensures
        first == second,
{
}

/// When a participant's PnL crosses from non-positive to positive, the sum
/// of positive PnL values grows by exactly the new PnL value — never by the
/// raw signed delta.
pub proof fn lemma_crossing_up_adds_new_pnl(old_pnl: i64, pnl_change: i64, total_pnl: u64)
    requires
        old_pnl <= 0,
        sat_add_i64(old_pnl, pnl_change) > 0,
    ensures
        total_pnl_after_update(old_pnl, pnl_change, total_pnl) == total_pnl + sat_add_i64(
            old_pnl,
            pnl_change,
        ),
{
}

/// When a positive PnL takes a negative change, the sum of positive PnL
/// values simply loses the change's magnitude (as long as the sum covers
/// it), whether or not the participant stays in profit: no re-increment
/// happens without a crossing from non-positive to positive.
pub proof fn lemma_negative_change_on_positive_pnl(old_pnl: i64, pnl_change: i64, total_pnl: u64)
    requires
        old_pnl > 0,
        pnl_change < 0,
        -(pnl_change as int) <= total_pnl,
    ensures
        total_pnl_after_update(old_pnl, pnl_change, total_pnl) == total_pnl + pnl_change,
{
}

} // verus!
