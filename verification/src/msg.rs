//! The caller-facing message and response shapes, transport-agnostic.

use vstd::prelude::*;

use crate::card::{BJCard, Hand};
use crate::game::{GameResult, Judge};
use crate::state::GameState;

verus! {

/// What instantiation needs: the address of the token contract that funds
/// deposits.
#[derive(Clone, Debug, PartialEq, Eq)]
pub struct InstantiateMsg {
    pub cw20_address: String,
}

/// The player's move in a round in progress.
#[derive(Copy, Clone, Debug, PartialEq, Eq, Structural)]
pub enum ActionCommand {
    Stand,
    Hit,
    DoubleDown { amount: u128 },
}

/// What a transfer from the token contract asks for.
#[derive(Copy, Clone, Debug, PartialEq, Eq, Structural)]
pub enum Cw20HookMsg {
    Deposit {},
}

/// The read-only queries.
#[derive(Clone, Debug, PartialEq, Eq)]
pub enum QueryMsg {
    GetDeposit { address: String },
    GetGameState { address: String },
}

/// An account's balance, echoed with its address.
#[derive(Clone, Debug, PartialEq, Eq)]
pub struct DepositResponse {
    pub address: String,
    pub deposit: u128,
}

/// An account's session row.
#[derive(Clone, Debug, PartialEq, Eq)]
pub struct GameStateResponce {
    pub state: GameState,
}

/// What a successful bet reports: the stake, the balance after the escrow
/// debit, and the freshly dealt hands.
#[derive(Clone, Debug, PartialEq, Eq)]
pub struct BetResponse {
    pub bet_amount: u128,
    pub balance_after: u128,
    pub dealer_hand: Hand,
    pub player_hand: Hand,
}

/// How an action left the round: still in progress after a safe hit, or
/// resolved with the judged outcome and the amount credited back.
#[derive(Copy, Clone, Debug, PartialEq, Eq, Structural)]
pub enum ActionOutcome {
    Continue { draw: BJCard },
    Finished { result: GameResult, judge: Judge, balance_change: u128 },
}

} // verus!
