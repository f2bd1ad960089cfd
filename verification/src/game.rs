//! Scoring, dealing, the dealer policy and the outcome judge.

use vstd::prelude::*;

use crate::card::{card_points, card_value, BJCard, Hand};
use crate::random::{choose_card, GameRng};

verus! {

/// The hard total of a hand: every card at its hard point value, aces
/// counting one.
pub open spec fn hard_score(h: Seq<BJCard>) -> int
    decreases h.len(),
{
    if h.len() == 0 {
        0
    } else {
        hard_score(h.drop_last()) + card_points(h.last())
    }
}

/// How many aces a hand holds.
pub open spec fn ace_count(h: Seq<BJCard>) -> int
    decreases h.len(),
{
    if h.len() == 0 {
        0
    } else {
        ace_count(h.drop_last()) + if h.last() == BJCard::Ace {
            1int
        } else {
            0int
        }
    }
}

/// The score of a hand. Cards are totalled at their hard values; when the
/// hand holds at least one ace and the cards other than the aces total ten
/// or less, one ace counts eleven instead of one. This is exactly what
/// evaluating the cards in sorted order with aces last yields: each ace in
/// turn scores eleven if the running total plus eleven stays within
/// twenty-one, else one.
pub open spec fn score_of(h: Seq<BJCard>) -> int {
    if ace_count(h) > 0 && hard_score(h) - ace_count(h) <= 10 {
        hard_score(h) + 10
    } else {
        hard_score(h)
    }
}

/// Basic bounds: a hand of n cards has a hard total between n and
/// 10·n − 9·(number of aces), and at most n of its cards are aces.
pub proof fn lemma_hand_bounds(h: Seq<BJCard>)
    ensures
        0 <= ace_count(h) <= h.len(),
        h.len() <= hard_score(h),
        hard_score(h) <= 10 * h.len() - 9 * ace_count(h),
    decreases h.len(),
{
    if h.len() > 0 {
        lemma_hand_bounds(h.drop_last());
    }
}

/// A two-card hand never busts: its score is at most twenty-one.
pub proof fn lemma_two_cards_no_bust(h: Seq<BJCard>)
    requires
        h.len() == 2,
    ensures
        score_of(h) <= 21,
{
    lemma_hand_bounds(h);
}

/// Computes the score of a hand, as `score_of` states it.
pub fn calc_score(hand: &Hand) -> (score: u128)
    ensures
        score == score_of(hand@),
{
    let n = hand.len();
    let mut hard: u128 = 0;
    let mut aces: u128 = 0;
    let mut i: usize = 0;
    proof {
        assert(hand@.take(0) =~= Seq::<BJCard>::empty());
    }
    while i < n
        invariant
            i <= n,
            n == hand@.len(),
            hard == hard_score(hand@.take(i as int)),
            aces == ace_count(hand@.take(i as int)),
        decreases n - i,
    {
        proof {
            lemma_hand_bounds(hand@.take(i as int));
            assert(hand@.take(i as int + 1).drop_last() =~= hand@.take(i as int));
            assert(hand@.take(i as int + 1).last() == hand@[i as int]);
        }
        let c = hand[i];
        hard = hard + card_value(c);
        if c == BJCard::Ace {
            aces = aces + 1;
        }
        i = i + 1;
    }
    proof {
        assert(hand@.take(n as int) =~= hand@);
        lemma_hand_bounds(hand@);
    }
    if aces > 0 && hard - aces <= 10 {
        hard + 10
    } else {
        hard
    }
}

proof fn lemma_tally_remove(s: Seq<BJCard>, i: int)
    requires
        0 <= i < s.len(),
    ensures
        hard_score(s.remove(i)) == hard_score(s) - card_points(s[i]),
        ace_count(s.remove(i)) == ace_count(s) - if s[i] == BJCard::Ace {
            1int
        } else {
            0int
        },
    decreases s.len(),
{
    if i == s.len() - 1 {
        assert(s.remove(i) =~= s.drop_last());
    } else {
        assert(s.remove(i).drop_last() =~= s.drop_last().remove(i));
        assert(s.remove(i).last() == s.last());
        lemma_tally_remove(s.drop_last(), i);
    }
}

proof fn lemma_tally_multiset(a: Seq<BJCard>, b: Seq<BJCard>)
    requires
        a.to_multiset() == b.to_multiset(),
    ensures
        hard_score(a) == hard_score(b),
        ace_count(a) == ace_count(b),
    decreases a.len(),
{
    broadcast use vstd::seq_lib::group_to_multiset_ensures;

    if a.len() == 0 {
        assert(a.to_multiset().len() == a.len());
        assert(b.to_multiset().len() == b.len());
    } else {
        let x = a.last();
        let ai = a.len() - 1;
        assert(a.contains(x));
        assert(b.to_multiset().count(x) > 0);
        assert(b.contains(x));
        let bi = choose|j: int| 0 <= j < b.len() && b[j] == x;
        assert(a.drop_last() =~= a.remove(ai));
        lemma_tally_remove(a, ai);
        lemma_tally_remove(b, bi);
        assert(a.remove(ai).to_multiset() =~= b.remove(bi).to_multiset());
        lemma_tally_multiset(a.drop_last(), b.remove(bi));
    }
}

/// The score of a hand does not depend on the order of its cards: any two
/// hands holding the same cards (as a multiset) score the same.
pub proof fn lemma_score_reorder(a: Seq<BJCard>, b: Seq<BJCard>)
    requires
        a.to_multiset() == b.to_multiset(),
    ensures
        score_of(a) == score_of(b),
{
    lemma_tally_multiset(a, b);
}

/// On a hand without aces the score is simply the sum of the cards' face
/// values, face cards counting ten: exactly what `hard_score` adds up.
pub proof fn lemma_score_no_aces(h: Seq<BJCard>)
    requires
        ace_count(h) == 0,
    ensures
        score_of(h) == hard_score(h),
{
}

/// The outcome of judging a completed pair of hands; each variant carries
/// the final scores involved.
#[derive(Copy, Clone, Debug, PartialEq, Eq, Structural)]
pub enum Judge {
    DealerBusted(u128),
    PlayerBusted(u128),
    DealerWin(u128, u128),
    PlayerWin(u128, u128),
    PlayerBJWin(u128, u128),
    Draw(u128, u128),
}

/// How a judged outcome settles for the player.
#[derive(Copy, Clone, Debug, PartialEq, Eq, Structural)]
pub enum GameResult {
    Win,
    Lose,
    Draw,
}

/// The judging rules, in decision order: a two-card twenty-one on both
/// sides is a draw; a two-card twenty-one on one side alone wins outright;
/// then busts decide; then the higher score wins, equal scores draw. The
/// chain is total: every pair of hands falls into exactly one case.
pub open spec fn judge_spec(dealer: Seq<BJCard>, player: Seq<BJCard>) -> Judge {
    let d = score_of(dealer);
    let p = score_of(player);
    if d == 21 && p == 21 && dealer.len() == 2 && player.len() == 2 {
        Judge::Draw(21, 21)
    } else if p == 21 && player.len() == 2 {
        Judge::PlayerBJWin(d as u128, 21)
    } else if d == 21 && dealer.len() == 2 {
        Judge::DealerWin(21, p as u128)
    } else if p > 21 {
        Judge::PlayerBusted(p as u128)
    } else if d > 21 {
        Judge::DealerBusted(d as u128)
    } else if d < p {
        Judge::PlayerWin(d as u128, p as u128)
    } else if d > p {
        Judge::DealerWin(d as u128, p as u128)
    } else {
        Judge::Draw(d as u128, p as u128)
    }
}

/// Classifies a completed pair of hands, exactly as `judge_spec` states.
/// The decision chain is total, so no internal-consistency failure exists.
pub fn judge(dealer: &Hand, player: &Hand) -> (j: Judge)
    ensures
        j == judge_spec(dealer@, player@),
{
    let d = calc_score(dealer);
    let p = calc_score(player);
    let dl = dealer.len();
    let pl = player.len();
    if d == 21 && p == 21 && dl == 2 && pl == 2 {
        Judge::Draw(21, 21)
    } else if p == 21 && pl == 2 {
        Judge::PlayerBJWin(d, 21)
    } else if d == 21 && dl == 2 {
        Judge::DealerWin(21, p)
    } else if p > 21 {
        Judge::PlayerBusted(p)
    } else if d > 21 {
        Judge::DealerBusted(d)
    } else if d < p {
        Judge::PlayerWin(d, p)
    } else if d > p {
        Judge::DealerWin(d, p)
    } else {
        Judge::Draw(d, p)
    }
}

/// Which side a judged outcome favours: busting the dealer or outscoring
/// them wins, being busted or outscored loses, equal settles as a draw.
pub open spec fn result_of(j: Judge) -> GameResult {
    match j {
        Judge::DealerBusted(_) => GameResult::Win,
        Judge::PlayerBusted(_) => GameResult::Lose,
        Judge::DealerWin(_, _) => GameResult::Lose,
        Judge::PlayerWin(_, _) => GameResult::Win,
        Judge::PlayerBJWin(_, _) => GameResult::Win,
        Judge::Draw(_, _) => GameResult::Draw,
    }
}

/// Maps a judged outcome to the round's result, as `result_of` states.
pub fn game_result(j: &Judge) -> (r: GameResult)
    ensures
        r == result_of(*j),
{
    match j {
        Judge::DealerBusted(_) => GameResult::Win,
        Judge::PlayerBusted(_) => GameResult::Lose,
        Judge::DealerWin(_, _) => GameResult::Lose,
        Judge::PlayerWin(_, _) => GameResult::Win,
        Judge::PlayerBJWin(_, _) => GameResult::Win,
        Judge::Draw(_, _) => GameResult::Draw,
    }
}

/// Addition on balances, saturating at the largest representable amount.
pub open spec fn sat_add(a: int, b: int) -> int {
    if a + b > u128::MAX {
        u128::MAX as int
    } else {
        a + b
    }
}

/// What the ledger is credited at resolution: twice the stake on a win
/// (the stake back plus as much again), the stake back on a draw, nothing
/// on a loss. The doubling saturates as the balance arithmetic does.
pub open spec fn payout_of(j: Judge, stake: u128) -> int {
    match result_of(j) {
        GameResult::Win => sat_add(stake as int, stake as int),
        GameResult::Lose => 0,
        GameResult::Draw => stake as int,
    }
}

/// Saturating balance addition, as `sat_add` states.
pub fn saturating_add_u128(a: u128, b: u128) -> (r: u128)
    ensures
        r == sat_add(a as int, b as int),
{
    if a > u128::MAX - b {
        u128::MAX
    } else {
        a + b
    }
}

/// The payout for a judged outcome, as `payout_of` states.
pub fn payout_amount(j: &Judge, stake: u128) -> (p: u128)
    ensures
        p == payout_of(*j, stake),
{
    match game_result(j) {
        GameResult::Win => saturating_add_u128(stake, stake),
        GameResult::Lose => 0,
        GameResult::Draw => stake,
    }
}

/// Conservation across one resolved round: starting from balance `b0`,
/// the stake is escrowed away and the payout credited back, so the final
/// balance moves by exactly `+stake` on a win, `0` on a draw and `-stake`
/// on a loss. (When `b0 + stake` exceeds the representable range the win
/// credit saturates and the movement can fall short, so such balances are
/// excluded.)
pub proof fn lemma_round_conservation(b0: u128, stake: u128, j: Judge)
    requires
        stake > 0,
        stake <= b0,
        b0 + stake <= u128::MAX,
    ensures
        ({
            let after = sat_add(b0 - stake, payout_of(j, stake));
            &&& result_of(j) == GameResult::Win ==> after == b0 + stake
            &&& result_of(j) == GameResult::Draw ==> after == b0
            &&& result_of(j) == GameResult::Lose ==> after == b0 - stake
        }),
{
}

/// The full pack in rank order, the source hands are drawn from.
pub fn card_list() -> (v: Vec<BJCard>)
    ensures
        v@ =~= seq![
            BJCard::Two,
            BJCard::Three,
            BJCard::Four,
            BJCard::Five,
            BJCard::Six,
            BJCard::Seven,
            BJCard::Eight,
            BJCard::Nine,
            BJCard::Ten,
            BJCard::Jack,
            BJCard::Queen,
            BJCard::King,
            BJCard::Ace,
        ],
{
    let mut v: Vec<BJCard> = Vec::new();
    v.push(BJCard::Two);
    v.push(BJCard::Three);
    v.push(BJCard::Four);
    v.push(BJCard::Five);
    v.push(BJCard::Six);
    v.push(BJCard::Seven);
    v.push(BJCard::Eight);
    v.push(BJCard::Nine);
    v.push(BJCard::Ten);
    v.push(BJCard::Jack);
    v.push(BJCard::Queen);
    v.push(BJCard::King);
    v.push(BJCard::Ace);
    v
}

/// Draws one card, uniformly and independently of all prior draws (the
/// infinite-shoe model: no removal, no reshuffling state).
pub fn draw_one(rng: &mut GameRng) -> BJCard {
    let cards = card_list();
    match choose_card(rng, cards.as_slice()) {
        Some(c) => c,
        None => {
            proof {
                assert(false);
            }
            BJCard::Two
        },
    }
}

/// Copies a hand element by element.
pub fn copy_hand(h: &Hand) -> (r: Hand)
    ensures
        r@ == h@,
{
    let mut r: Vec<BJCard> = Vec::new();
    let mut i: usize = 0;
    while i < h.len()
        invariant
            i <= h@.len(),
            r@ == h@.take(i as int),
        decreases h@.len() - i,
    {
        r.push(h[i]);
        proof {
            assert(h@.take(i as int + 1) =~= h@.take(i as int).push(h@[i as int]));
        }
        i = i + 1;
    }
    proof {
        assert(h@.take(h@.len() as int) =~= h@);
    }
    r
}

/// The opening deal: one card to the dealer, then two to the player, by
/// three independent draws in that fixed order. The dealer's single open
/// card (no hidden hole card) is deliberate and preserved.
pub fn first_deal(rng: &mut GameRng) -> (deal: (Hand, Hand))
    ensures
        deal.0@.len() == 1,
        deal.1@.len() == 2,
{
    let dealer = draw_one(rng);
    let player1 = draw_one(rng);
    let player2 = draw_one(rng);
    let mut dh: Vec<BJCard> = Vec::new();
    dh.push(dealer);
    let mut ph: Vec<BJCard> = Vec::new();
    ph.push(player1);
    ph.push(player2);
    (dh, ph)
}

/// A finished dealer hand: it extends the starting hand, scores at least
/// seventeen, and no earlier stopping point would have — the dealer drew
/// exactly while the score stayed below seventeen.
pub open spec fn dealer_complete(d0: Seq<BJCard>, d: Seq<BJCard>) -> bool {
    &&& score_of(d) >= 17
    &&& d.len() >= d0.len()
    &&& d.take(d0.len() as int) == d0
    &&& forall|i: int| d0.len() <= i < d.len() ==> score_of(#[trigger] d.take(i)) < 17
}

/// The dealer hand a resolution judges against: when the player has
/// busted the round is already decided and the dealer hand stands as it
/// was; otherwise the dealer policy has run to completion.
pub open spec fn dealer_resolved(d0: Seq<BJCard>, p: Seq<BJCard>, d: Seq<BJCard>) -> bool {
    if score_of(p) > 21 {
        d == d0
    } else {
        dealer_complete(d0, d)
    }
}

/// How far a dealer hand's hard total still is from seventeen; zero once
/// reached. Every draw shrinks this, which bounds the dealer's loop.
pub open spec fn dealer_gap(h: Seq<BJCard>) -> nat {
    if hard_score(h) >= 17 {
        0
    } else {
        (17 - hard_score(h)) as nat
    }
}

/// The automated dealer policy: draw and append while the score is below
/// seventeen, standing on any seventeen or more (a soft seventeen
/// included). Terminates because every draw raises the hard total by at
/// least one.
pub fn dealer_action(hand: &Hand, rng: &mut GameRng) -> (new_hand: Hand)
    ensures
        dealer_complete(hand@, new_hand@),
{
    let mut new_hand = copy_hand(hand);
    let mut score = calc_score(&new_hand);
    while score < 17
        invariant
            score == score_of(new_hand@),
            new_hand@.len() >= hand@.len(),
            new_hand@.take(hand@.len() as int) == hand@,
            forall|i: int|
                hand@.len() <= i < new_hand@.len() ==> score_of(#[trigger] new_hand@.take(i))
                    < 17,
        decreases dealer_gap(new_hand@),
    {
        let ghost prev = new_hand@;
        proof {
            lemma_hand_bounds(prev);
        }
        let c = draw_one(rng);
        new_hand.push(c);
        score = calc_score(&new_hand);
        proof {
            assert(new_hand@.drop_last() =~= prev);
            assert(new_hand@.last() == c);
            assert(hard_score(new_hand@) == hard_score(prev) + card_points(c));
            assert(card_points(c) >= 1);
            assert(new_hand@.take(hand@.len() as int) =~= prev.take(hand@.len() as int));
            assert forall|i: int|
                hand@.len() <= i < new_hand@.len() implies score_of(
                #[trigger] new_hand@.take(i),
            ) < 17 by {
                if i < prev.len() {
                    assert(new_hand@.take(i) =~= prev.take(i));
                } else {
                    assert(new_hand@.take(i) =~= prev);
                }
            }
        }
    }
    new_hand
}

} // verus!
