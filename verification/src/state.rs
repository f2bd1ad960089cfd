//! The stored rows: per-account balance vaults and game sessions, and the
//! contract-level owner and token configuration.

use vstd::prelude::*;

use crate::card::Hand;
use crate::game::score_of;

verus! {

/// The contract's administrative record: who instantiated it.
#[derive(Clone, Debug, PartialEq, Eq)]
pub struct State {
    pub owner: String,
}

/// The contract's configuration: the token contract whose transfers fund
/// deposits.
#[derive(Clone, Debug, PartialEq, Eq)]
pub struct Config {
    pub token_address: String,
}

/// One account's balance: a non-negative amount of escrowable chips.
#[derive(Copy, Clone, Debug, PartialEq, Eq, Structural)]
pub struct Vault {
    pub balance: u128,
}

/// One account's session: the current round while `ingame`, or the last
/// resolved round's final hands (kept for query) once it is over.
#[derive(Clone, Debug, PartialEq, Eq)]
pub struct GameState {
    pub ingame: bool,
    pub total_bet_amount: u128,
    pub dealer_hand: Hand,
    pub player_hand: Hand,
}

/// The session invariant: while a round is in progress the stake is
/// positive, the dealer holds at least one card, the player at least two,
/// and the player has not busted (a busting draw resolves the round at
/// once, so it is never left in progress).
pub open spec fn game_wf(g: GameState) -> bool {
    g.ingame ==> {
        &&& g.total_bet_amount > 0
        &&& g.dealer_hand@.len() >= 1
        &&& g.player_hand@.len() >= 2
        &&& score_of(g.player_hand@) <= 21
    }
}

} // verus!
