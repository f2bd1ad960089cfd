//! The card rank domain and its point values.

use vstd::prelude::*;
use vstd::string::StringExecFns;

verus! {

/// The thirteen card ranks, ordered so that `Ace` comes last: scoring
/// evaluates an ace against the total of all other cards.
#[derive(Copy, Clone, Debug, PartialEq, Eq, Structural)]
pub enum BJCard {
    Two,
    Three,
    Four,
    Five,
    Six,
    Seven,
    Eight,
    Nine,
    Ten,
    Jack,
    Queen,
    King,
    Ace,
}

/// A hand is the sequence of cards in the order they were dealt or drawn.
pub type Hand = Vec<BJCard>;

/// The hard point value of a single card: face value for `Two`..`Ten`,
/// ten for the face cards, and one for an ace (the soft-ace bonus is
/// accounted for at the hand level).
pub open spec fn card_points(c: BJCard) -> int {
    match c {
        BJCard::Two => 2,
        BJCard::Three => 3,
        BJCard::Four => 4,
        BJCard::Five => 5,
        BJCard::Six => 6,
        BJCard::Seven => 7,
        BJCard::Eight => 8,
        BJCard::Nine => 9,
        BJCard::Ten => 10,
        BJCard::Jack => 10,
        BJCard::Queen => 10,
        BJCard::King => 10,
        BJCard::Ace => 1,
    }
}

/// The hard point value of a single card, as executable code.
pub fn card_value(c: BJCard) -> (v: u128)
    ensures
        v == card_points(c),
{
    match c {
        BJCard::Two => 2,
        BJCard::Three => 3,
        BJCard::Four => 4,
        BJCard::Five => 5,
        BJCard::Six => 6,
        BJCard::Seven => 7,
        BJCard::Eight => 8,
        BJCard::Nine => 9,
        BJCard::Ten => 10,
        BJCard::Jack => 10,
        BJCard::Queen => 10,
        BJCard::King => 10,
        BJCard::Ace => 1,
    }
}

/// The display text of one card: the rank's position in the cycle starting
/// at two, so `Two` prints as "2", `Jack` as "11", `King` as "0" and `Ace`
/// as "1".
pub open spec fn card_label(c: BJCard) -> Seq<char> {
    match c {
        BJCard::Two => seq!['2'],
        BJCard::Three => seq!['3'],
        BJCard::Four => seq!['4'],
        BJCard::Five => seq!['5'],
        BJCard::Six => seq!['6'],
        BJCard::Seven => seq!['7'],
        BJCard::Eight => seq!['8'],
        BJCard::Nine => seq!['9'],
        BJCard::Ten => seq!['1', '0'],
        BJCard::Jack => seq!['1', '1'],
        BJCard::Queen => seq!['1', '2'],
        BJCard::King => seq!['0'],
        BJCard::Ace => seq!['1'],
    }
}

/// The display text of a whole hand: each card's label followed by a space.
pub open spec fn hand_label(h: Seq<BJCard>) -> Seq<char>
    decreases h.len(),
{
    if h.len() == 0 {
        Seq::empty()
    } else {
        hand_label(h.drop_last()) + card_label(h.last()) + seq![' ']
    }
}

fn card_text(c: BJCard) -> (t: &'static str)
    ensures
        t@ == card_label(c),
{
    match c {
        BJCard::Two => {
            proof {
                reveal_strlit("2");
            }
            "2"
        },
        BJCard::Three => {
            proof {
                reveal_strlit("3");
            }
            "3"
        },
        BJCard::Four => {
            proof {
                reveal_strlit("4");
            }
            "4"
        },
        BJCard::Five => {
            proof {
                reveal_strlit("5");
            }
            "5"
        },
        BJCard::Six => {
            proof {
                reveal_strlit("6");
            }
            "6"
        },
        BJCard::Seven => {
            proof {
                reveal_strlit("7");
            }
            "7"
        },
        BJCard::Eight => {
            proof {
                reveal_strlit("8");
            }
            "8"
        },
        BJCard::Nine => {
            proof {
                reveal_strlit("9");
            }
            "9"
        },
        BJCard::Ten => {
            proof {
                reveal_strlit("10");
            }
            "10"
        },
        BJCard::Jack => {
            proof {
                reveal_strlit("11");
            }
            "11"
        },
        BJCard::Queen => {
            proof {
                reveal_strlit("12");
            }
            "12"
        },
        BJCard::King => {
            proof {
                reveal_strlit("0");
            }
            "0"
        },
        BJCard::Ace => {
            proof {
                reveal_strlit("1");
            }
            "1"
        },
    }
}

/// Renders a hand for display: every card's number followed by a space.
pub fn hand_to_string(hand: &Hand) -> (s: String)
    ensures
        s@ == hand_label(hand@),
{
    let mut s = String::new();
    let mut i: usize = 0;
    proof {
        assert(hand@.take(0) =~= Seq::<BJCard>::empty());
    }
    while i < hand.len()
        invariant
            i <= hand@.len(),
            s@ == hand_label(hand@.take(i as int)),
        decreases hand@.len() - i,
    {
        let t = card_text(hand[i]);
        s.append(t);
        s.append(" ");
        proof {
            reveal_strlit(" ");
            let pre = hand@.take(i as int + 1);
            assert(pre.drop_last() =~= hand@.take(i as int));
            assert(pre.last() == hand@[i as int]);
            assert(s@ =~= hand_label(hand@.take(i as int + 1)));
        }
        i = i + 1;
    }
    proof {
        assert(hand@.take(hand@.len() as int) =~= hand@);
    }
    s
}

} // verus!
