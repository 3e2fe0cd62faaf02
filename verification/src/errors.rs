use vstd::prelude::*;

verus! {

/// The failure kinds shared by every operation of the sale engine.
///
/// A failed operation aborts the whole transition: the caller receives one of
/// these kinds and no record shows any effect of the attempt.
#[derive(Clone, Copy, Debug, PartialEq, Eq, Structural)]
pub enum ErrorCode {
    /// The caller is not a member of the whitelist registry.
    NotWhitelisted,
    /// The purchase would push the buyer's token balance over the per-buyer cap.
    PurchaseLimitExceeded,
    /// The paying record does not hold enough currency for the operation.
    InsufficientFunds,
    /// The caller is not the owner recorded in the custody record.
    InvalidOwner,
    /// A well-known slot that the operation would create is already allocated.
    AlreadyInitialized,
    /// The whitelist registry is at capacity and cannot take another member.
    RegistryFull,
}

impl ErrorCode {
    /// The human-readable description of this failure kind.
    pub fn message(&self) -> (r: &'static str)
        ensures
            *self == ErrorCode::NotWhitelisted ==> r@ == "You are not whitelisted."@,
            *self == ErrorCode::PurchaseLimitExceeded ==> r@ == "Purchase limit exceeded."@,
            *self == ErrorCode::InsufficientFunds ==> r@ == "Insufficient funds."@,
            *self == ErrorCode::InvalidOwner ==> r@ == "Invalid owner."@,
            *self == ErrorCode::AlreadyInitialized ==> r@ == "Already initialized."@,
            *self == ErrorCode::RegistryFull ==> r@ == "The whitelist is full."@,
    {
        match self {
            ErrorCode::NotWhitelisted => "You are not whitelisted.",
            ErrorCode::PurchaseLimitExceeded => "Purchase limit exceeded.",
            ErrorCode::InsufficientFunds => "Insufficient funds.",
            ErrorCode::InvalidOwner => "Invalid owner.",
            ErrorCode::AlreadyInitialized => "Already initialized.",
            ErrorCode::RegistryFull => "The whitelist is full.",
        }
    }
}

} // verus!
