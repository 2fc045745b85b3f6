use vstd::prelude::*;

verus! {

/// The global ledger of the venue: one record per venue instance.
///
/// `vault_balance` is the collateral physically held; `total_capital` is the
/// sum of all participants' deposited principal; `insurance_fund` is the
/// protocol-owned buffer (a subset of the vault); `total_pnl` is the sum of
/// the currently *positive* participant PnL values; `coverage_ratio_bps` is
/// the basis-point fraction (0..=10000) of `total_pnl` that the vault can
/// actually pay out. `authority` is the identity allowed to administer the
/// venue; the core never inspects it.
#[derive(Clone, Copy, PartialEq, Eq, Structural, Debug)]
pub struct State {
    pub vault_balance: u64,
    pub insurance_fund: u64,
    pub total_capital: u64,
    pub total_pnl: u64,
    pub coverage_ratio_bps: u16,
    pub authority: u64,
}

impl State {
    /// Well-formedness: the coverage ratio is a genuine basis-point value.
    pub open spec fn wf(self) -> bool {
        self.coverage_ratio_bps <= 10000
    }
}

/// One participant's account, created lazily on the first deposit.
///
/// `capital` is the principal currently attributed to the participant;
/// `pnl` is the signed realized/unrealized profit-and-loss; `owner` is the
/// identity the account is bound to (opaque to the core).
#[derive(Clone, Copy, PartialEq, Eq, Structural, Debug)]
pub struct UserAccount {
    pub owner: u64,
    pub capital: u64,
    pub pnl: i64,
}

impl Default for UserAccount {
    /// A freshly created account: unbound, no principal, flat PnL.
    fn default() -> (u: UserAccount)
        ensures
            u.owner == 0,
            u.capital == 0,
            u.pnl == 0,
    {
        UserAccount { owner: 0, capital: 0, pnl: 0 }
    }
}

/// Read-only snapshot of the five global aggregates.
#[derive(Clone, Copy, PartialEq, Eq, Structural, Debug)]
pub struct StateResponse {
    pub vault_balance: u64,
    pub insurance_fund: u64,
    pub total_capital: u64,
    pub total_pnl: u64,
    pub coverage_ratio_bps: u16,
}

} // verus!
