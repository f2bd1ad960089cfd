//! The errors an operation can fail with. Each is a deterministic
//! precondition failure returned to the caller; none commits any state.

use vstd::prelude::*;

verus! {

#[derive(Copy, Clone, Debug, PartialEq, Eq, Structural)]
pub enum ContractError {
    /// A deposit came from some contract other than the configured token.
    Unauthorized,
    /// A bet of zero.
    InvalidAmount,
    /// A bet or double-down exceeds the escrowable funds; carries the
    /// balance that was available.
    InsufficientBalance { balance: u128 },
    /// The account has no vault, or no session row at all.
    NoSuchAccountExists,
    /// An action on an account whose last round is already resolved.
    NoActiveSession,
    /// A bet while a round is already in progress.
    SessionAlreadyActive,
    /// A double-down after a hit: the player already holds more than two
    /// cards.
    DoubleDownNotEligible,
    /// A double-down whose amount differs from the stake it must match.
    WrongDoubleDownAmount { expected: u128 },
}

} // verus!
