use vstd::prelude::*;

verus! {

/// The named conditions on which an operation is refused. A refused
/// operation leaves every record it was given unchanged.
#[derive(Debug, Clone, Copy, PartialEq, Eq, Structural)]
pub enum StakingError {
    Paused,
    NotPaused,
    AlreadyConfigured,
    NotConfigured,
    ZeroAmount,
    InsufficientStake,
    Overflow,
    Underflow,
    VaultNotEmpty,
    NonZeroStake,
    RateTooHigh,
    Reentrancy,
}

} // verus!
