//! Solvency-tracking ledger core for a pooled-margin trading venue.
//!
//! A shared vault of collateral backs each participant's deposited capital
//! and profit-and-loss, alongside a protocol-owned insurance fund. After
//! every capital or PnL change the core recomputes a global *coverage
//! ratio* — the basis-point fraction of aggregate positive PnL the vault can
//! currently pay — and withdrawals are gated so that no participant can
//! extract more than the vault can honor: principal is always withdrawable,
//! profit only up to its collateralized fraction.
//!
//! Every operation is a pure state transition over [`State`] and
//! [`UserAccount`]; identity checks, persistence and event delivery belong
//! to the hosting runtime.

pub mod coverage;
pub mod errors;
pub mod events;
pub mod gate;
pub mod laws;
pub mod ops;
pub mod state;

pub use coverage::calculate_coverage_ratio;
pub use errors::CustomError;
pub use events::DepositEvent;
pub use events::TradeEvent;
pub use events::WithdrawalEvent;
pub use gate::calculate_withdrawable;
pub use ops::add_insurance;
pub use ops::deposit;
pub use ops::get_state;
pub use ops::initialize;
pub use ops::update_coverage_ratio;
pub use ops::update_pnl;
pub use ops::withdraw;

pub use state::State;
pub use state::StateResponse;
pub use state::UserAccount;
