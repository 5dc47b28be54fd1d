use vstd::prelude::*;

verus! {

/// Every way an operation of the lottery pool can be rejected. Each failure
/// leaves the stored state untouched; nothing is retried internally.
#[derive(Clone, Copy, Debug, PartialEq, Eq, Structural)]
pub enum ContractError {
    /// An address handed to initialization failed the host's validation.
    InvalidAddress,
    /// A deposit call attached no funds at all.
    NoFundsProvided,
    /// A deposit call attached funds, but none matched the required stake.
    InvalidPayment,
    /// A deposit arrived at or after the round's expiration.
    RoundExpired,
    /// A randomness callback came from an address other than the oracle.
    UnauthorizedReceive,
    /// A randomness callback carried a payload that is not 32 bytes.
    InvalidRandomness,
    /// A randomness callback carried a job id that no round creation issued.
    InvalidJobId,
    /// Settlement was attempted on a round with no depositors.
    NoDepositors,
    /// Settlement was attempted on a round that already has a winner.
    AlreadySettled,
    /// The named round was never created.
    NotFound,
}

} // verus!
