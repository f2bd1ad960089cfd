use blackjack::card::BJCard;
use blackjack::contract::House;
use blackjack::error::ContractError;
use blackjack::msg::{ActionCommand, ActionOutcome};
use blackjack::random::gen_rng;
use blackjack::state::GameState;

use BJCard::{Five, Jack, Seven, Ten, Three, Two};

fn init_with_balance() -> House {
    let mut h = House::instantiate("creator".to_string(), "token0000".to_string());
    let balance = h
        .receive_cw20(&"token0000".to_string(), &"user0000".to_string(), 1000)
        .unwrap();
    assert_eq!(1000, balance);
    h
}

fn in_progress(amount: u128, d: Vec<BJCard>, p: Vec<BJCard>) -> GameState {
    GameState { ingame: true, total_bet_amount: amount, dealer_hand: d, player_hand: p }
}

#[test]
fn proper_initialization() {
    let h = House::instantiate("creator".to_string(), "token0000".to_string());

    let d = h.query_deposit(&"anyone".to_string());
    assert_eq!("anyone".to_string(), d.address);
    assert_eq!(0, d.deposit);

    let err = h.query_gamestate(&"anyone".to_string()).unwrap_err();
    assert_eq!(ContractError::NoSuchAccountExists, err);
}

#[test]
fn deposit() {
    let mut h = House::instantiate("creator".to_string(), "token0000".to_string());

    let balance = h
        .receive_cw20(&"token0000".to_string(), &"user0000".to_string(), 1000)
        .unwrap();
    assert_eq!(1000, balance);

    let d = h.query_deposit(&"user0000".to_string());
    assert_eq!("user0000".to_string(), d.address);
    assert_eq!(1000, d.deposit);

    // deposit again
    let balance = h
        .receive_cw20(&"token0000".to_string(), &"user0000".to_string(), 1000)
        .unwrap();
    assert_eq!(2000, balance);
    assert_eq!(2000, h.query_deposit(&"user0000".to_string()).deposit);

    // non-existing user
    let d = h.query_deposit(&"other0000".to_string());
    assert_eq!("other0000".to_string(), d.address);
    assert_eq!(0, d.deposit);
}

#[test]
fn deposit_unauthorized() {
    let mut h = House::instantiate("creator".to_string(), "token0000".to_string());

    let err = h
        .receive_cw20(&"badtoken".to_string(), &"user0000".to_string(), 1000)
        .unwrap_err();
    assert_eq!(ContractError::Unauthorized, err);
    assert_eq!(0, h.query_deposit(&"user0000".to_string()).deposit);
}

#[test]
fn deposit_saturates() {
    let mut h = House::instantiate("creator".to_string(), "token0000".to_string());
    let token = "token0000".to_string();
    let user = "user0000".to_string();

    let balance = h.receive_cw20(&token, &user, u128::MAX).unwrap();
    assert_eq!(u128::MAX, balance);
    let balance = h.receive_cw20(&token, &user, 1).unwrap();
    assert_eq!(u128::MAX, balance);
}

#[test]
fn bet() {
    let mut h = init_with_balance();
    let user = "user0000".to_string();
    let mut rng = gen_rng(0);

    let resp = h.try_bet(&user, 100, &mut rng).unwrap();
    assert_eq!(100, resp.bet_amount);
    assert_eq!(900, resp.balance_after);
    assert_eq!(1, resp.dealer_hand.len());
    assert_eq!(2, resp.player_hand.len());
    assert_eq!(900, h.query_deposit(&user).deposit);

    // bet is not allowed while in game
    let err = h.try_bet(&user, 100, &mut rng).unwrap_err();
    assert_eq!(ContractError::SessionAlreadyActive, err);
    assert_eq!(900, h.query_deposit(&user).deposit);

    // bet more than the deposit is not allowed
    let mut h = init_with_balance();
    let err = h.try_bet(&user, 1001, &mut rng).unwrap_err();
    assert_eq!(ContractError::InsufficientBalance { balance: 1000 }, err);
    assert_eq!(1000, h.query_deposit(&user).deposit);

    // an account that never deposited cannot bet
    let err = h.try_bet(&"other0000".to_string(), 100, &mut rng).unwrap_err();
    assert_eq!(ContractError::NoSuchAccountExists, err);

    // a zero bet is rejected
    let err = h.try_bet(&user, 0, &mut rng).unwrap_err();
    assert_eq!(ContractError::InvalidAmount, err);
}

#[test]
fn action() {
    let mut h = init_with_balance();
    let user = "user0000".to_string();
    let mut rng = gen_rng(0);

    // action before bet is not allowed
    let err = h.try_action(&user, &ActionCommand::Stand, &mut rng).unwrap_err();
    assert_eq!(ContractError::NoSuchAccountExists, err);

    h.try_bet(&user, 100, &mut rng).unwrap();

    // another account cannot act on this round
    let err = h
        .try_action(&"other0000".to_string(), &ActionCommand::Stand, &mut rng)
        .unwrap_err();
    assert_eq!(ContractError::NoSuchAccountExists, err);

    let outcome = h.try_action(&user, &ActionCommand::Stand, &mut rng).unwrap();
    assert!(matches!(outcome, ActionOutcome::Finished { .. }));
    assert!(!h.query_gamestate(&user).unwrap().state.ingame);
}

#[test]
fn action_stand() {
    let mut h = init_with_balance();
    let user = "user0000".to_string();
    let mut rng = gen_rng(0);

    // a standing dealer hand of twenty against a player five: a loss, the
    // escrowed stake is gone (it was never debited here, the session row was
    // written directly, so the balance simply stays put)
    h.save_session(&user, in_progress(100, vec![Ten, Ten], vec![Two, Three]));

    h.try_action(&user, &ActionCommand::Stand, &mut rng).unwrap();
    assert_eq!(1000, h.query_deposit(&user).deposit);

    // stand after stand should fail
    let err = h.try_action(&user, &ActionCommand::Stand, &mut rng).unwrap_err();
    assert_eq!(ContractError::NoActiveSession, err);
}

#[test]
fn action_hit() {
    let mut h = init_with_balance();
    let user = "user0000".to_string();
    let mut rng = gen_rng(0);

    h.save_session(&user, in_progress(100, vec![Seven], vec![Ten, Three]));

    let outcome = h.try_action(&user, &ActionCommand::Hit, &mut rng).unwrap();
    assert_eq!(ActionOutcome::Continue { draw: Seven }, outcome);

    let state = h.query_gamestate(&user).unwrap().state;
    assert_eq!(
        GameState {
            ingame: true,
            total_bet_amount: 100,
            dealer_hand: vec![Seven],
            player_hand: vec![Ten, Three, Seven],
        },
        state
    );

    // hit after stand is not allowed
    let mut h = init_with_balance();
    h.save_session(&user, in_progress(100, vec![Seven], vec![Ten, Three]));
    h.try_action(&user, &ActionCommand::Stand, &mut rng).unwrap();
    let err = h.try_action(&user, &ActionCommand::Hit, &mut rng).unwrap_err();
    assert_eq!(ContractError::NoActiveSession, err);

    // hit after doubledown is not allowed
    let mut h = init_with_balance();
    h.save_session(&user, in_progress(100, vec![Seven], vec![Ten, Three]));
    h.try_action(&user, &ActionCommand::DoubleDown { amount: 100 }, &mut rng)
        .unwrap();
    let err = h.try_action(&user, &ActionCommand::Hit, &mut rng).unwrap_err();
    assert_eq!(ContractError::NoActiveSession, err);
}

#[test]
fn action_doubledown() {
    let user = "user0000".to_string();
    let mut rng = gen_rng(0);

    let mut h = init_with_balance();
    h.save_session(&user, in_progress(100, vec![Seven], vec![Ten, Three]));
    let outcome = h
        .try_action(&user, &ActionCommand::DoubleDown { amount: 100 }, &mut rng)
        .unwrap();
    assert!(matches!(outcome, ActionOutcome::Finished { .. }));
    let state = h.query_gamestate(&user).unwrap().state;
    assert!(!state.ingame);
    assert_eq!(200, state.total_bet_amount);
    assert_eq!(3, state.player_hand.len());

    // doubledown after a hit is not allowed, and changes nothing
    let mut h = init_with_balance();
    h.save_session(&user, in_progress(100, vec![Seven], vec![Ten, Three, Three]));
    let err = h
        .try_action(&user, &ActionCommand::DoubleDown { amount: 100 }, &mut rng)
        .unwrap_err();
    assert_eq!(ContractError::DoubleDownNotEligible, err);
    assert_eq!(1000, h.query_deposit(&user).deposit);
    let state = h.query_gamestate(&user).unwrap().state;
    assert!(state.ingame);
    assert_eq!(vec![Ten, Three, Three], state.player_hand);

    // a second escrow debit beyond the balance is not allowed
    let mut h = init_with_balance();
    h.save_session(&user, in_progress(1200, vec![Seven], vec![Ten, Three]));
    let err = h
        .try_action(&user, &ActionCommand::DoubleDown { amount: 1200 }, &mut rng)
        .unwrap_err();
    assert_eq!(ContractError::InsufficientBalance { balance: 1000 }, err);
    assert_eq!(1000, h.query_deposit(&user).deposit);

    // the doubled amount must equal the stake, and a mismatch changes nothing
    let mut h = init_with_balance();
    h.save_session(&user, in_progress(100, vec![Seven], vec![Ten, Three]));
    let err = h
        .try_action(&user, &ActionCommand::DoubleDown { amount: 200 }, &mut rng)
        .unwrap_err();
    assert_eq!(ContractError::WrongDoubleDownAmount { expected: 100 }, err);
    assert_eq!(1000, h.query_deposit(&user).deposit);
    let state = h.query_gamestate(&user).unwrap().state;
    assert!(state.ingame);
    assert_eq!(100, state.total_bet_amount);
}

#[test]
fn end_to_end_round() {
    let user = "user0000".to_string();
    let mut rng = gen_rng(0);

    // a bet escrows the stake and opens the round
    let mut h = init_with_balance();
    h.try_bet(&user, 100, &mut rng).unwrap();
    assert_eq!(900, h.query_deposit(&user).deposit);
    assert!(h.query_gamestate(&user).unwrap().state.ingame);

    // a win pays the stake back twice: 900 + 200
    h.save_session(&user, in_progress(100, vec![Ten, Seven], vec![Ten, Jack]));
    h.try_action(&user, &ActionCommand::Stand, &mut rng).unwrap();
    assert_eq!(1100, h.query_deposit(&user).deposit);

    // a loss pays nothing: the balance stays at 900
    let mut h = init_with_balance();
    h.try_bet(&user, 100, &mut rng).unwrap();
    h.save_session(&user, in_progress(100, vec![Ten, Ten], vec![Ten, Seven]));
    h.try_action(&user, &ActionCommand::Stand, &mut rng).unwrap();
    assert_eq!(900, h.query_deposit(&user).deposit);

    // a draw pays the stake back once: 900 + 100
    let mut h = init_with_balance();
    h.try_bet(&user, 100, &mut rng).unwrap();
    h.save_session(&user, in_progress(100, vec![Ten, Seven], vec![Ten, Seven]));
    h.try_action(&user, &ActionCommand::Stand, &mut rng).unwrap();
    assert_eq!(1000, h.query_deposit(&user).deposit);
}

#[test]
fn hit_to_bust_resolves_round() {
    let user = "user0000".to_string();
    let mut rng = gen_rng(0);

    // player twenty draws again: with the seeded stream the draw is a seven,
    // the player busts at twenty-seven and the round resolves as a loss with
    // the dealer hand left untouched
    let mut h = init_with_balance();
    h.save_session(&user, in_progress(100, vec![Five], vec![Ten, Jack]));
    let outcome = h.try_action(&user, &ActionCommand::Hit, &mut rng).unwrap();
    match outcome {
        ActionOutcome::Finished { result: _, judge, balance_change } => {
            assert_eq!(blackjack::game::Judge::PlayerBusted(27), judge);
            assert_eq!(0, balance_change);
        },
        ActionOutcome::Continue { .. } => panic!("the bust must resolve the round"),
    }
    let state = h.query_gamestate(&user).unwrap().state;
    assert!(!state.ingame);
    assert_eq!(vec![Five], state.dealer_hand);
    assert_eq!(vec![Ten, Jack, Seven], state.player_hand);
    assert_eq!(1000, h.query_deposit(&user).deposit);
}

#[test]
fn double_down_win_doubles_payout() {
    let user = "user0000".to_string();
    let mut rng = gen_rng(0);

    // stake 100 doubled to 200; the seeded draw is a seven, so the player
    // finishes at twenty against a standing dealer seventeen
    let mut h = init_with_balance();
    h.save_session(&user, in_progress(100, vec![Ten, Seven], vec![Ten, Three]));
    let outcome = h
        .try_action(&user, &ActionCommand::DoubleDown { amount: 100 }, &mut rng)
        .unwrap();
    match outcome {
        ActionOutcome::Finished { result, judge: _, balance_change } => {
            assert_eq!(blackjack::game::GameResult::Win, result);
            assert_eq!(400, balance_change);
        },
        ActionOutcome::Continue { .. } => panic!("a double-down must resolve the round"),
    }
    // 1000 - 100 (second escrow) + 400 (double stake paid back twice)
    assert_eq!(1300, h.query_deposit(&user).deposit);
}
