use vstd::prelude::*;

verus! {

/// Rejected-operation errors. Both leave the ledger untouched: an operation
/// either applies in full or not at all.
#[derive(Clone, Copy, PartialEq, Eq, Structural, Debug)]
pub enum CustomError {
    /// A caller supplied a zero amount to deposit, withdraw or add-insurance.
    InvalidAmount,
    /// A withdrawal request exceeds the computed withdrawable amount.
    InsufficientBalance,
}

impl CustomError {
    /// A short human-readable description of the error.
    pub fn message(&self) -> (text: &'static str)
        ensures
            self is InvalidAmount ==> text@ == "Invalid amount"@,
            self is InsufficientBalance ==> text@ == "Insufficient balance"@,
    {
        match self {
            CustomError::InvalidAmount => "Invalid amount",
            CustomError::InsufficientBalance => "Insufficient balance",
        }
    }
}

} // verus!
