//! The per-account session state machine and its coupling to the balance
//! ledger: bet, act (hit / stand / double-down), resolve, deposit, query.
//!
//! The row-level functions (`exec_bet`, `deposit_vault`, `bet_round`,
//! `play_action`) carry the whole rules on plain values, so a host adapter
//! can run them against its own storage; [`House`] binds them to the
//! in-library per-account stores and keeps the cross-row invariants.

use vstd::prelude::*;

use crate::card::{BJCard, Hand};
use crate::error::ContractError;
use crate::game::{
    calc_score, copy_hand, dealer_action, dealer_resolved, first_deal, game_result, judge,
    judge_spec, lemma_two_cards_no_bust, payout_amount, payout_of, result_of, sat_add,
    saturating_add_u128, score_of,
};
use crate::msg::{ActionCommand, ActionOutcome, BetResponse, DepositResponse, GameStateResponce};
use crate::random::GameRng;
use crate::state::{game_wf, Config, GameState, State, Vault};
use crate::store::AddrMap;

verus! {

/// The value behind an optional reference, for speaking of optional rows
/// in contracts.
pub open spec fn deref_opt<T>(o: Option<&T>) -> Option<T> {
    match o {
        Some(t) => Some(*t),
        None => None,
    }
}

/// A row read from a map: present or absent.
pub open spec fn map_opt<V>(m: Map<Seq<char>, V>, k: Seq<char>) -> Option<V> {
    if m.contains_key(k) {
        Some(m[k])
    } else {
        None
    }
}

/// Why an escrow debit fails: no vault at all, or not enough balance.
pub open spec fn debit_error(vault: Option<Vault>, amount: u128) -> Option<ContractError> {
    match vault {
        None => Some(ContractError::NoSuchAccountExists),
        Some(v) => if v.balance < amount {
            Some(ContractError::InsufficientBalance { balance: v.balance })
        } else {
            None
        },
    }
}

/// The atomic compare-and-debit at the heart of escrow: load the current
/// balance, validate, store the reduced balance — or fail and change
/// nothing, exactly as `debit_error` states.
pub fn exec_bet(vault: Option<&Vault>, amount: u128) -> (r: Result<Vault, ContractError>)
    ensures
        match r {
            Ok(v) => debit_error(deref_opt(vault), amount).is_none() && v.balance == deref_opt(
                vault,
            ).unwrap().balance - amount,
            Err(e) => debit_error(deref_opt(vault), amount) == Some(e),
        },
{
    match vault {
        None => Err(ContractError::NoSuchAccountExists),
        Some(v) => {
            if amount > v.balance {
                Err(ContractError::InsufficientBalance { balance: v.balance })
            } else {
                Ok(Vault { balance: v.balance - amount })
            }
        },
    }
}

/// The balance a vault holds, zero when the row does not exist yet.
pub open spec fn balance_or_zero(vault: Option<Vault>) -> int {
    match vault {
        Some(v) => v.balance as int,
        None => 0,
    }
}

/// A deposit credited to a vault: added to the existing balance
/// (saturating), or opening the vault with the transferred amount.
pub fn deposit_vault(vault: Option<&Vault>, amount: u128) -> (v: Vault)
    ensures
        v.balance == sat_add(balance_or_zero(deref_opt(vault)), amount as int),
{
    match vault {
        Some(v) => Vault { balance: saturating_add_u128(v.balance, amount) },
        None => Vault { balance: amount },
    }
}

/// Why a bet is rejected, in the order the checks run: a zero bet, then
/// the escrow debit's own failures, then a round already in progress.
pub open spec fn bet_error(amount: u128, vault: Option<Vault>, game: Option<GameState>) -> Option<
    ContractError,
> {
    if amount == 0 {
        Some(ContractError::InvalidAmount)
    } else if debit_error(vault, amount).is_some() {
        debit_error(vault, amount)
    } else if game.is_some() && game.unwrap().ingame {
        Some(ContractError::SessionAlreadyActive)
    } else {
        None
    }
}

/// Opens a round from one account's rows: escrow-debits the stake and
/// deals one card to the dealer and two to the player. Fails exactly as
/// `bet_error` states, and on failure nothing is to be persisted.
pub fn bet_round(
    vault: Option<&Vault>,
    game: Option<&GameState>,
    amount: u128,
    rng: &mut GameRng,
) -> (r: Result<(Vault, GameState), ContractError>)
    ensures
        match r {
            Ok(vg) => {
                &&& bet_error(amount, deref_opt(vault), deref_opt(game)).is_none()
                &&& vg.0.balance == deref_opt(vault).unwrap().balance - amount
                &&& vg.1.ingame
                &&& vg.1.total_bet_amount == amount
                &&& vg.1.dealer_hand@.len() == 1
                &&& vg.1.player_hand@.len() == 2
                &&& game_wf(vg.1)
            },
            Err(e) => bet_error(amount, deref_opt(vault), deref_opt(game)) == Some(e),
        },
{
    if amount == 0 {
        return Err(ContractError::InvalidAmount);
    }
    let new_vault = match exec_bet(vault, amount) {
        Err(e) => {
            return Err(e);
        },
        Ok(v) => v,
    };
    if let Some(g) = game {
        if g.ingame {
            return Err(ContractError::SessionAlreadyActive);
        }
    }
    let deal = first_deal(rng);
    let new_game = GameState {
        ingame: true,
        total_bet_amount: amount,
        dealer_hand: deal.0,
        player_hand: deal.1,
    };
    proof {
        lemma_two_cards_no_bust(new_game.player_hand@);
    }
    Ok((new_vault, new_game))
}

/// What an action leaves behind for one account: the balance after any
/// debit and credit, the session row to persist, and what to report.
#[derive(Clone, Debug, PartialEq, Eq)]
pub struct ActionStep {
    pub balance_after: u128,
    pub game: GameState,
    pub outcome: ActionOutcome,
}

/// Why an action is rejected. Stand and hit always proceed; a double-down
/// must match the stake exactly, is only open before any hit, and needs
/// the second escrow debit to be covered.
pub open spec fn action_error(balance: u128, game: GameState, action: ActionCommand) -> Option<
    ContractError,
> {
    match action {
        ActionCommand::DoubleDown { amount } => if amount != game.total_bet_amount {
            Some(ContractError::WrongDoubleDownAmount { expected: game.total_bet_amount })
        } else if game.player_hand@.len() != 2 {
            Some(ContractError::DoubleDownNotEligible)
        } else if balance < amount {
            Some(ContractError::InsufficientBalance { balance })
        } else {
            None
        },
        _ => None,
    }
}

/// A double-down that goes through doubles the stake; the doubled stake
/// must stay representable (otherwise the addition would abort).
pub open spec fn stake_fits(balance: u128, game: GameState, action: ActionCommand) -> bool {
    match action {
        ActionCommand::DoubleDown { amount } => action_error(balance, game, action).is_none()
            ==> game.total_bet_amount + amount <= u128::MAX,
        _ => true,
    }
}

/// A resolved round: the dealer hand is finished (or stands as it was
/// against a busted player), the judge has ruled on the final hands, the
/// payout is credited to the balance, and the session row keeps the final
/// hands with the round marked over.
pub open spec fn settled(
    balance: int,
    stake: u128,
    d0: Seq<BJCard>,
    p: Seq<BJCard>,
    step: ActionStep,
) -> bool {
    let d = step.game.dealer_hand@;
    let j = judge_spec(d, p);
    &&& !step.game.ingame
    &&& step.game.total_bet_amount == stake
    &&& step.game.player_hand@ == p
    &&& dealer_resolved(d0, p, d)
    &&& step.outcome == ActionOutcome::Finished {
        result: result_of(j),
        judge: j,
        balance_change: (payout_of(j, stake) as u128),
    }
    &&& step.balance_after == sat_add(balance, payout_of(j, stake))
}

/// A hit: one drawn card joins the player hand. Within twenty-one the
/// round stays in progress, balance and stake untouched; over twenty-one
/// the player has busted and the round resolves at once, the dealer hand
/// standing as it was.
pub open spec fn hit_post(balance: u128, game: GameState, step: ActionStep) -> bool {
    let p = step.game.player_hand@;
    &&& p.len() == game.player_hand@.len() + 1
    &&& p.drop_last() == game.player_hand@
    &&& if score_of(p) <= 21 {
        &&& step.balance_after == balance
        &&& step.game.ingame
        &&& step.game.total_bet_amount == game.total_bet_amount
        &&& step.game.dealer_hand@ == game.dealer_hand@
        &&& step.outcome == ActionOutcome::Continue { draw: p.last() }
    } else {
        settled(balance as int, game.total_bet_amount, game.dealer_hand@, p, step)
    }
}

/// A double-down: a second escrow debit of the stake, the stake doubled,
/// exactly one more card to the player, and the round resolves.
pub open spec fn dd_post(balance: u128, game: GameState, amount: u128, step: ActionStep) -> bool {
    let p = step.game.player_hand@;
    &&& p.len() == game.player_hand@.len() + 1
    &&& p.drop_last() == game.player_hand@
    &&& settled(
        balance - amount,
        (game.total_bet_amount + amount) as u128,
        game.dealer_hand@,
        p,
        step,
    )
}

/// What each action leaves behind, per command: stand resolves on the
/// hands as they are, hit and double-down as `hit_post` and `dd_post`
/// state.
pub open spec fn step_post(
    balance: u128,
    game: GameState,
    action: ActionCommand,
    step: ActionStep,
) -> bool {
    match action {
        ActionCommand::Stand => settled(
            balance as int,
            game.total_bet_amount,
            game.dealer_hand@,
            game.player_hand@,
            step,
        ),
        ActionCommand::Hit => hit_post(balance, game, step),
        ActionCommand::DoubleDown { amount } => dd_post(balance, game, amount, step),
    }
}

/// Resolves the round: the dealer draws to seventeen unless the player is
/// already busted, the judge rules, and the payout is credited.
fn settle_round(balance: u128, stake: u128, dealer0: &Hand, player: Hand, rng: &mut GameRng) -> (
    step: ActionStep)
    ensures
        settled(balance as int, stake, dealer0@, player@, step),
{
    let p_score = calc_score(&player);
    let new_dealer = if p_score > 21 {
        copy_hand(dealer0)
    } else {
        dealer_action(dealer0, rng)
    };
    let j = judge(&new_dealer, &player);
    let result = game_result(&j);
    let pay = payout_amount(&j, stake);
    let new_balance = saturating_add_u128(balance, pay);
    ActionStep {
        balance_after: new_balance,
        game: GameState {
            ingame: false,
            total_bet_amount: stake,
            dealer_hand: new_dealer,
            player_hand: player,
        },
        outcome: ActionOutcome::Finished { result, judge: j, balance_change: pay },
    }
}

/// Plays one action against one account's rows: the whole per-row rules
/// of the state machine. Fails exactly as `action_error` states (and on
/// failure nothing is to be persisted); succeeds as `step_post` states.
pub fn play_action(
    balance: u128,
    game: &GameState,
    action: &ActionCommand,
    rng: &mut GameRng,
) -> (r: Result<ActionStep, ContractError>)
    requires
        game.ingame,
        game_wf(*game),
        stake_fits(balance, *game, *action),
    ensures
        match r {
            Ok(step) => action_error(balance, *game, *action).is_none() && step_post(
                balance,
                *game,
                *action,
                step,
            ),
            Err(e) => action_error(balance, *game, *action) == Some(e),
        },
{
    match *action {
        ActionCommand::Stand => {
            Ok(settle_round(balance, game.total_bet_amount, &game.dealer_hand, copy_hand(&game.player_hand), rng))
        },
        ActionCommand::Hit => {
            let c = draw_into(&game.player_hand, rng);
            let score = calc_score(&c.0);
            proof {
                assert(c.0@.drop_last() =~= game.player_hand@);
            }
            if score <= 21 {
                let step = ActionStep {
                    balance_after: balance,
                    game: GameState {
                        ingame: true,
                        total_bet_amount: game.total_bet_amount,
                        dealer_hand: copy_hand(&game.dealer_hand),
                        player_hand: c.0,
                    },
                    outcome: ActionOutcome::Continue { draw: c.1 },
                };
                Ok(step)
            } else {
                Ok(settle_round(balance, game.total_bet_amount, &game.dealer_hand, c.0, rng))
            }
        },
        ActionCommand::DoubleDown { amount } => {
            if amount != game.total_bet_amount {
                return Err(ContractError::WrongDoubleDownAmount {
                    expected: game.total_bet_amount,
                });
            }
            if game.player_hand.len() != 2 {
                return Err(ContractError::DoubleDownNotEligible);
            }
            if balance < amount {
                return Err(ContractError::InsufficientBalance { balance });
            }
            let new_balance = balance - amount;
            let new_stake = game.total_bet_amount + amount;
            let c = draw_into(&game.player_hand, rng);
            proof {
                assert(c.0@.drop_last() =~= game.player_hand@);
            }
            Ok(settle_round(new_balance, new_stake, &game.dealer_hand, c.0, rng))
        },
    }
}

/// Copies a hand and draws one more card into it.
fn draw_into(hand: &Hand, rng: &mut GameRng) -> (r: (Hand, BJCard))
    ensures
        r.0@ == hand@.push(r.1),
{
    let c = crate::game::draw_one(rng);
    let mut h = copy_hand(hand);
    h.push(c);
    (h, c)
}

/// Copies a session row field by field.
pub fn clone_game(g: &GameState) -> (r: GameState)
    ensures
        r.ingame == g.ingame,
        r.total_bet_amount == g.total_bet_amount,
        r.dealer_hand@ == g.dealer_hand@,
        r.player_hand@ == g.player_hand@,
{
    GameState {
        ingame: g.ingame,
        total_bet_amount: g.total_bet_amount,
        dealer_hand: copy_hand(&g.dealer_hand),
        player_hand: copy_hand(&g.player_hand),
    }
}

/// The whole contract state: the administrative records and the two
/// per-account stores — balance vaults and game sessions — that every
/// operation reads and writes one account at a time.
pub struct House {
    state: State,
    config: Config,
    vaults: AddrMap<Vault>,
    games: AddrMap<GameState>,
}

/// Why a bet on this account fails, over the stored rows.
pub open spec fn house_bet_error(h: House, s: Seq<char>, amount: u128) -> Option<ContractError> {
    bet_error(amount, map_opt(h.vaults_map(), s), map_opt(h.games_map(), s))
}

/// Why an action on this account fails: no session row at all, a session
/// already resolved, or the action's own failures.
pub open spec fn house_action_error(h: House, s: Seq<char>, action: ActionCommand) -> Option<
    ContractError,
> {
    if !h.games_map().contains_key(s) {
        Some(ContractError::NoSuchAccountExists)
    } else if !h.games_map()[s].ingame {
        Some(ContractError::NoActiveSession)
    } else {
        action_error(h.vaults_map()[s].balance, h.games_map()[s], action)
    }
}

/// `stake_fits`, read against the stored rows.
pub open spec fn house_stake_fits(h: House, s: Seq<char>, action: ActionCommand) -> bool {
    (h.games_map().contains_key(s) && h.games_map()[s].ingame && h.vaults_map().contains_key(s))
        ==> stake_fits(h.vaults_map()[s].balance, h.games_map()[s], action)
}

impl House {
    /// The stored vaults, one balance per account.
    pub closed spec fn vaults_map(&self) -> Map<Seq<char>, Vault> {
        self.vaults@
    }

    /// The stored sessions, one row per account that ever bet.
    pub closed spec fn games_map(&self) -> Map<Seq<char>, GameState> {
        self.games@
    }

    /// The account that instantiated the contract.
    pub closed spec fn owner(&self) -> Seq<char> {
        self.state.owner@
    }

    /// The token contract whose transfers fund deposits.
    pub closed spec fn token_address(&self) -> Seq<char> {
        self.config.token_address@
    }

    /// The cross-row invariants: both stores keyed uniquely, every stored
    /// session well formed, and every account with a round in progress
    /// holding a vault the resolution can credit.
    pub closed spec fn wf(&self) -> bool {
        &&& self.vaults.wf()
        &&& self.games.wf()
        &&& forall|k: Seq<char>| #[trigger]
            self.games_map().contains_key(k) ==> game_wf(self.games_map()[k]) && (
            self.games_map()[k].ingame ==> self.vaults_map().contains_key(k))
    }

    /// Sets the contract up with its owner and the token contract to
    /// accept deposits from; no account holds anything yet.
    pub fn instantiate(owner: String, cw20_address: String) -> (h: House)
        ensures
            h.wf(),
            h.owner() == owner@,
            h.token_address() == cw20_address@,
            h.vaults_map() == Map::<Seq<char>, Vault>::empty(),
            h.games_map() == Map::<Seq<char>, GameState>::empty(),
    {
        House {
            state: State { owner },
            config: Config { token_address: cw20_address },
            vaults: AddrMap::new(),
            games: AddrMap::new(),
        }
    }

    /// Accepts a token transfer as a deposit: only the configured token
    /// contract may fund accounts; the amount is credited to the sender's
    /// vault (opening it on first deposit) and the new balance returned.
    pub fn receive_cw20(&mut self, token_contract: &String, sender: &String, amount: u128) -> (r:
        Result<u128, ContractError>)
        requires
            old(self).wf(),
        ensures
            final(self).wf(),
            final(self).owner() == old(self).owner(),
            final(self).token_address() == old(self).token_address(),
            final(self).games_map() == old(self).games_map(),
            match r {
                Ok(nb) => {
                    &&& token_contract@ == old(self).token_address()
                    &&& nb == sat_add(
                        balance_or_zero(map_opt(old(self).vaults_map(), sender@)),
                        amount as int,
                    )
                    &&& final(self).vaults_map() == old(self).vaults_map().insert(
                        sender@,
                        Vault { balance: nb },
                    )
                },
                Err(e) => {
                    &&& e == ContractError::Unauthorized
                    &&& token_contract@ != old(self).token_address()
                    &&& final(self).vaults_map() == old(self).vaults_map()
                },
            },
    {
        if !(*token_contract == self.config.token_address) {
            return Err(ContractError::Unauthorized);
        }
        let new_vault = deposit_vault(self.vaults.get(sender), amount);
        let nb = new_vault.balance;
        self.vaults.put(sender, new_vault);
        proof {
            assert forall|k: Seq<char>| #[trigger]
                self.games_map().contains_key(k) implies game_wf(self.games_map()[k]) && (
            self.games_map()[k].ingame ==> self.vaults_map().contains_key(k)) by {
                assert(old(self).games_map().contains_key(k));
            }
        }
        Ok(nb)
    }

    /// Places a bet: escrow-debits the stake from the sender's vault,
    /// deals the opening hands, and opens the round — or fails exactly as
    /// `house_bet_error` states, changing nothing.
    pub fn try_bet(&mut self, sender: &String, amount: u128, rng: &mut GameRng) -> (r: Result<
        BetResponse,
        ContractError,
    >)
        requires
            old(self).wf(),
        ensures
            final(self).wf(),
            final(self).owner() == old(self).owner(),
            final(self).token_address() == old(self).token_address(),
            match r {
                Ok(resp) => {
                    &&& house_bet_error(*old(self), sender@, amount).is_none()
                    &&& resp.bet_amount == amount
                    &&& resp.balance_after == old(self).vaults_map()[sender@].balance - amount
                    &&& final(self).vaults_map() == old(self).vaults_map().insert(
                        sender@,
                        Vault { balance: resp.balance_after },
                    )
                    &&& final(self).games_map().contains_key(sender@)
                    &&& ({
                        let g = final(self).games_map()[sender@];
                        &&& g.ingame
                        &&& g.total_bet_amount == amount
                        &&& g.dealer_hand@.len() == 1
                        &&& g.player_hand@.len() == 2
                        &&& resp.dealer_hand@ == g.dealer_hand@
                        &&& resp.player_hand@ == g.player_hand@
                    })
                    &&& final(self).games_map().remove(sender@) == old(self).games_map().remove(
                        sender@,
                    )
                },
                Err(e) => {
                    &&& Some(e) == house_bet_error(*old(self), sender@, amount)
                    &&& final(self).vaults_map() == old(self).vaults_map()
                    &&& final(self).games_map() == old(self).games_map()
                },
            },
    {
        let vr = self.vaults.get(sender);
        let gr = self.games.get(sender);
        match bet_round(vr, gr, amount, rng) {
            Err(e) => Err(e),
            Ok((nv, ng)) => {
                let resp = BetResponse {
                    bet_amount: amount,
                    balance_after: nv.balance,
                    dealer_hand: copy_hand(&ng.dealer_hand),
                    player_hand: copy_hand(&ng.player_hand),
                };
                self.vaults.put(sender, nv);
                self.games.put(sender, ng);
                Ok(resp)
            },
        }
    }

    /// Plays one action on the sender's round: stand, hit, or double-down,
    /// resolving the round as the rules dictate — or fails exactly as
    /// `house_action_error` states, changing nothing. Ledger credit and
    /// session update are applied together or not at all.
    pub fn try_action(&mut self, sender: &String, action: &ActionCommand, rng: &mut GameRng) -> (r:
        Result<ActionOutcome, ContractError>)
        requires
            old(self).wf(),
            house_stake_fits(*old(self), sender@, *action),
        ensures
            final(self).wf(),
            final(self).owner() == old(self).owner(),
            final(self).token_address() == old(self).token_address(),
            match r {
                Ok(outcome) => {
                    &&& house_action_error(*old(self), sender@, *action).is_none()
                    &&& final(self).games_map().contains_key(sender@)
                    &&& final(self).vaults_map().contains_key(sender@)
                    &&& final(self).games_map().remove(sender@) == old(self).games_map().remove(
                        sender@,
                    )
                    &&& final(self).vaults_map().remove(sender@) == old(self).vaults_map().remove(
                        sender@,
                    )
                    &&& step_post(
                        old(self).vaults_map()[sender@].balance,
                        old(self).games_map()[sender@],
                        *action,
                        ActionStep {
                            balance_after: final(self).vaults_map()[sender@].balance,
                            game: final(self).games_map()[sender@],
                            outcome,
                        },
                    )
                },
                Err(e) => {
                    &&& Some(e) == house_action_error(*old(self), sender@, *action)
                    &&& final(self).vaults_map() == old(self).vaults_map()
                    &&& final(self).games_map() == old(self).games_map()
                },
            },
    {
        let game = match self.games.get(sender) {
            None => {
                return Err(ContractError::NoSuchAccountExists);
            },
            Some(g) => g,
        };
        if !game.ingame {
            return Err(ContractError::NoActiveSession);
        }
        let balance = match self.vaults.get(sender) {
            Some(v) => v.balance,
            None => {
                proof {
                    assert(false);
                }
                0
            },
        };
        match play_action(balance, game, action, rng) {
            Err(e) => Err(e),
            Ok(step) => {
                let outcome = step.outcome;
                self.vaults.put(sender, Vault { balance: step.balance_after });
                self.games.put(sender, step.game);
                Ok(outcome)
            },
        }
    }

    /// Reads an account's balance; an account never deposited to reads as
    /// zero.
    pub fn query_deposit(&self, address: &String) -> (resp: DepositResponse)
        requires
            self.wf(),
        ensures
            resp.address@ == address@,
            resp.deposit == balance_or_zero(map_opt(self.vaults_map(), address@)),
    {
        let deposit = match self.vaults.get(address) {
            Some(v) => v.balance,
            None => 0,
        };
        DepositResponse { address: address.clone(), deposit }
    }

    /// Reads an account's session row: the round in progress, or the last
    /// resolved round's final hands.
    pub fn query_gamestate(&self, address: &String) -> (r: Result<
        GameStateResponce,
        ContractError,
    >)
        requires
            self.wf(),
        ensures
            match r {
                Ok(resp) => {
                    &&& self.games_map().contains_key(address@)
                    &&& ({
                        let g = self.games_map()[address@];
                        &&& resp.state.ingame == g.ingame
                        &&& resp.state.total_bet_amount == g.total_bet_amount
                        &&& resp.state.dealer_hand@ == g.dealer_hand@
                        &&& resp.state.player_hand@ == g.player_hand@
                    })
                },
                Err(e) => e == ContractError::NoSuchAccountExists && !self.games_map().contains_key(
                    address@,
                ),
            },
    {
        match self.games.get(address) {
            Some(g) => Ok(GameStateResponce { state: clone_game(g) }),
            None => Err(ContractError::NoSuchAccountExists),
        }
    }

    /// Writes an account's session row directly, as the host's session
    /// store allows; the row must satisfy the session invariant, and a
    /// round in progress needs a vault to settle against.
    pub fn save_session(&mut self, address: &String, game: GameState)
        requires
            old(self).wf(),
            game_wf(game),
            game.ingame ==> old(self).vaults_map().contains_key(address@),
        ensures
            final(self).wf(),
            final(self).owner() == old(self).owner(),
            final(self).token_address() == old(self).token_address(),
            final(self).vaults_map() == old(self).vaults_map(),
            final(self).games_map() == old(self).games_map().insert(address@, game),
    {
        self.games.put(address, game);
        proof {
            assert forall|k: Seq<char>| #[trigger]
                self.games_map().contains_key(k) implies game_wf(self.games_map()[k]) && (
            self.games_map()[k].ingame ==> self.vaults_map().contains_key(k)) by {
                if k != address@ {
                    assert(old(self).games_map().contains_key(k));
                }
            }
        }
    }
}

} // verus!
