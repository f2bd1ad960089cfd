use blackjack::card::BJCard;
use blackjack::contract::{bet_round, deposit_vault, exec_bet, play_action};
use blackjack::error::ContractError;
use blackjack::msg::{ActionCommand, ActionOutcome};
use blackjack::random::gen_rng;
use blackjack::state::{GameState, Vault};

use BJCard::{Seven, Ten, Three};

#[test]
fn exec_bet_debits_or_fails() {
    let v = Vault { balance: 1000 };

    let debited = exec_bet(Some(&v), 100).unwrap();
    assert_eq!(900, debited.balance);

    let err = exec_bet(Some(&v), 1001).unwrap_err();
    assert_eq!(ContractError::InsufficientBalance { balance: 1000 }, err);

    let err = exec_bet(None, 100).unwrap_err();
    assert_eq!(ContractError::NoSuchAccountExists, err);
}

#[test]
fn deposit_vault_credits() {
    let opened = deposit_vault(None, 700);
    assert_eq!(700, opened.balance);

    let topped = deposit_vault(Some(&opened), 300);
    assert_eq!(1000, topped.balance);

    let full = deposit_vault(Some(&Vault { balance: u128::MAX }), 5);
    assert_eq!(u128::MAX, full.balance);
}

#[test]
fn bet_round_deals_and_escrows() {
    let mut rng = gen_rng(0);
    let v = Vault { balance: 1000 };

    let (nv, ng) = bet_round(Some(&v), None, 100, &mut rng).unwrap();
    assert_eq!(900, nv.balance);
    assert!(ng.ingame);
    assert_eq!(100, ng.total_bet_amount);
    assert_eq!(1, ng.dealer_hand.len());
    assert_eq!(2, ng.player_hand.len());

    // a round in progress blocks a second bet
    let err = bet_round(Some(&nv), Some(&ng), 100, &mut rng).unwrap_err();
    assert_eq!(ContractError::SessionAlreadyActive, err);

    // a resolved round does not
    let over = GameState { ingame: false, ..ng };
    assert!(bet_round(Some(&nv), Some(&over), 100, &mut rng).is_ok());

    let err = bet_round(Some(&v), None, 0, &mut rng).unwrap_err();
    assert_eq!(ContractError::InvalidAmount, err);
}

#[test]
fn play_action_stand_resolves() {
    let mut rng = gen_rng(0);
    let game = GameState {
        ingame: true,
        total_bet_amount: 100,
        dealer_hand: vec![Ten, Seven],
        player_hand: vec![Ten, Ten],
    };

    // dealer seventeen stands; the player's twenty wins, paying the stake twice
    let step = play_action(900, &game, &ActionCommand::Stand, &mut rng).unwrap();
    assert_eq!(1100, step.balance_after);
    assert!(!step.game.ingame);
    assert_eq!(vec![Ten, Seven], step.game.dealer_hand);
    match step.outcome {
        ActionOutcome::Finished { result, judge, balance_change } => {
            assert_eq!(blackjack::game::GameResult::Win, result);
            assert_eq!(blackjack::game::Judge::PlayerWin(17, 20), judge);
            assert_eq!(200, balance_change);
        },
        ActionOutcome::Continue { .. } => panic!("a stand must resolve the round"),
    }
}

#[test]
fn play_action_double_down_errors() {
    let mut rng = gen_rng(0);
    let game = GameState {
        ingame: true,
        total_bet_amount: 100,
        dealer_hand: vec![Seven],
        player_hand: vec![Ten, Three],
    };

    let err = play_action(1000, &game, &ActionCommand::DoubleDown { amount: 99 }, &mut rng)
        .unwrap_err();
    assert_eq!(ContractError::WrongDoubleDownAmount { expected: 100 }, err);

    let err = play_action(40, &game, &ActionCommand::DoubleDown { amount: 100 }, &mut rng)
        .unwrap_err();
    assert_eq!(ContractError::InsufficientBalance { balance: 40 }, err);

    let hit_already = GameState { player_hand: vec![Ten, Three, Three], ..game };
    let err = play_action(1000, &hit_already, &ActionCommand::DoubleDown { amount: 100 }, &mut rng)
        .unwrap_err();
    assert_eq!(ContractError::DoubleDownNotEligible, err);
}
