use vstd::prelude::*;

verus! {

/// Why an operation was refused. A refused operation leaves every record as it was.
#[derive(Debug, Clone, Copy, PartialEq, Eq, Structural)]
pub enum StreamError {
    /// The stream does not end after it starts, or its flow interval is zero.
    InvalidSchedule,
    /// An enabled permission becomes active outside the stream's lifetime.
    InvalidPermissionWindow,
    /// The first deposit of a non-prepaid stream is below the minimum deposit.
    DepositTooLow,
    /// The first deposit of a non-prepaid stream is more than the stream can ever pay out.
    DepositTooHigh,
    /// A topup would leave more in escrow than the stream can still pay out.
    ExceedsMaxTopup,
    /// The funding mint is neither of the activity's reward mints.
    WrongRewardMint,
    /// The caller, the stream's state or the time does not allow the operation.
    Unauthorized,
    /// The escrow account does not hold the rent-exempt minimum.
    EscrowNotRentExempt,
    /// An amount does not fit in 64 bits.
    ArithmeticOverflow,
    /// The proof does not lead from the claimed leaf to the distributor's root.
    InvalidMerkleProof,
    /// The claimer has already been paid by this distributor.
    AlreadyClaimed,
    /// The claim would exceed the reward pool, or the pool is exhausted.
    MaxClaim,
    /// The recipient or mint that was passed is not the one on record.
    InvalidRecipient,
}

} // verus!
