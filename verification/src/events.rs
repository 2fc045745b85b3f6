use vstd::prelude::*;

verus! {

/// Notification produced by a successful deposit; the host delivers it.
#[derive(Clone, Copy, PartialEq, Eq, Structural, Debug)]
pub struct DepositEvent {
    pub user: u64,
    pub amount: u64,
}

/// Notification produced by a PnL update; the host delivers it.
#[derive(Clone, Copy, PartialEq, Eq, Structural, Debug)]
pub struct TradeEvent {
    pub user: u64,
    pub pnl_change: i64,
}

/// Notification produced by a successful withdrawal; the host delivers it.
#[derive(Clone, Copy, PartialEq, Eq, Structural, Debug)]
pub struct WithdrawalEvent {
    pub user: u64,
    pub amount: u64,
}

} // verus!
