use vstd::prelude::*;

verus! {

/// One of the four French suits.
#[derive(Copy, Clone, Debug, PartialEq, Eq, Hash, Structural)]
pub enum Suit {
    Clubs,
    Diamonds,
    Hearts,
    Spades,
}

/// One of the thirteen card ranks.
#[derive(Copy, Clone, Debug, PartialEq, Eq, Hash, Structural)]
pub enum Rank {
    Two,
    Three,
    Four,
    Five,
    Six,
    Seven,
    Eight,
    Nine,
    Ten,
    Jack,
    Queen,
    King,
    Ace,
}

/// A playing card: a rank together with a suit. Pure value, compared field by field.
#[derive(Copy, Clone, Debug, PartialEq, Eq, Hash, Structural)]
pub struct Card {
    pub rank: Rank,
    pub suit: Suit,
}

/// The blackjack pip value of a rank: Ace counts 1, face cards count 10,
/// the others count their face number.
pub open spec fn rank_pip(r: Rank) -> nat {
    match r {
        Rank::Two => 2,
        Rank::Three => 3,
        Rank::Four => 4,
        Rank::Five => 5,
        Rank::Six => 6,
        Rank::Seven => 7,
        Rank::Eight => 8,
        Rank::Nine => 9,
        Rank::Ten => 10,
        Rank::Jack => 10,
        Rank::Queen => 10,
        Rank::King => 10,
        Rank::Ace => 1,
    }
}

/// The suit of the `i`-th group of thirteen cards in the fixed deck order.
pub open spec fn suit_of_index(i: int) -> Suit {
    if i == 0 {
        Suit::Clubs
    } else if i == 1 {
        Suit::Diamonds
    } else if i == 2 {
        Suit::Hearts
    } else {
        Suit::Spades
    }
}

/// The rank at offset `i` within one suit's run of thirteen cards.
pub open spec fn rank_of_index(i: int) -> Rank {
    if i == 0 {
        Rank::Two
    } else if i == 1 {
        Rank::Three
    } else if i == 2 {
        Rank::Four
    } else if i == 3 {
        Rank::Five
    } else if i == 4 {
        Rank::Six
    } else if i == 5 {
        Rank::Seven
    } else if i == 6 {
        Rank::Eight
    } else if i == 7 {
        Rank::Nine
    } else if i == 8 {
        Rank::Ten
    } else if i == 9 {
        Rank::Jack
    } else if i == 10 {
        Rank::Queen
    } else if i == 11 {
        Rank::King
    } else {
        Rank::Ace
    }
}

/// The `i`-th card of the fixed pre-shuffle deck order: all thirteen ranks of
/// Clubs, then Diamonds, then Hearts, then Spades.
pub open spec fn deck_card(i: int) -> Card {
    Card { rank: rank_of_index(i % 13), suit: suit_of_index(i / 13) }
}

/// The 52 cards of one standard deck in the fixed enumeration order.
pub open spec fn standard_deck_seq() -> Seq<Card> {
    Seq::new(52, |i: int| deck_card(i))
}

impl Suit {
    /// The four suits in the fixed enumeration order.
    pub fn all() -> (r: [Suit; 4])
        ensures
            r@ == Seq::new(4, |i: int| suit_of_index(i)),
    {
        let r = [Suit::Clubs, Suit::Diamonds, Suit::Hearts, Suit::Spades];
        proof {
            assert(r@ =~= Seq::new(4, |i: int| suit_of_index(i)));
        }
        r
    }
}

impl Rank {
    /// The blackjack pip value of this rank.
    pub fn pip_value(self) -> (v: u8)
        ensures
            v == rank_pip(self),
    {
        match self {
            Rank::Ace => 1,
            Rank::Jack | Rank::Queen | Rank::King => 10,
            Rank::Two => 2,
            Rank::Three => 3,
            Rank::Four => 4,
            Rank::Five => 5,
            Rank::Six => 6,
            Rank::Seven => 7,
            Rank::Eight => 8,
            Rank::Nine => 9,
            Rank::Ten => 10,
        }
    }

    /// The thirteen ranks in the fixed enumeration order.
    pub fn all() -> (r: [Rank; 13])
        ensures
            r@ == Seq::new(13, |i: int| rank_of_index(i)),
    {
        let r = [
            Rank::Two,
            Rank::Three,
            Rank::Four,
            Rank::Five,
            Rank::Six,
            Rank::Seven,
            Rank::Eight,
            Rank::Nine,
            Rank::Ten,
            Rank::Jack,
            Rank::Queen,
            Rank::King,
            Rank::Ace,
        ];
        proof {
            assert(r@ =~= Seq::new(13, |i: int| rank_of_index(i)));
        }
        r
    }
}

impl Card {
    /// Pairs a rank with a suit.
    pub fn new(rank: Rank, suit: Suit) -> (c: Card)
        ensures
            c == (Card { rank, suit }),
    {
        Card { rank, suit }
    }

    /// The 52 distinct rank-and-suit combinations, in the fixed enumeration
    /// order that seed-reproducible shuffling starts from.
    #[verifier::loop_isolation(false)]
    pub fn standard_deck() -> (deck: Vec<Card>)
        ensures
            deck@ == standard_deck_seq(),
    {
        let suits = Suit::all();
        let ranks = Rank::all();
        let mut deck: Vec<Card> = Vec::new();
        for s in 0..4usize
            invariant
                deck@.len() == s as int * 13,
                forall|k: int| 0 <= k < deck@.len() ==> deck@[k] == deck_card(k),
        {
            for r in 0..13usize
                invariant
                    deck@.len() == s as int * 13 + r as int,
                    forall|k: int| 0 <= k < deck@.len() ==> deck@[k] == deck_card(k),
            {
                deck.push(Card::new(ranks[r], suits[s]));
                proof {
                    let k: int = deck@.len() - 1;
                    assert(k == s as int * 13 + r as int);
                    assert(k / 13 == s as int && k % 13 == r as int) by (nonlinear_arith)
                        requires
                            k == s as int * 13 + r as int,
                            0 <= s < 4,
                            0 <= r < 13,
                    ;
                }
            }
        }
        proof {
            assert(deck@ =~= standard_deck_seq());
        }
        deck
    }

    /// The blackjack pip value of this card's rank.
    pub fn pip_value(&self) -> (v: u8)
        ensures
            v == rank_pip(self.rank),
    {
        self.rank.pip_value()
    }
}

} // verus!
