use vstd::prelude::*;

use crate::card::{rank_pip, Card, Rank};

verus! {

/// The hard pip sum of a sequence of cards: every Ace counted as 1.
pub open spec fn hard_total(cards: Seq<Card>) -> nat
    decreases cards.len(),
{
    if cards.len() == 0 {
        0
    } else {
        hard_total(cards.drop_last()) + rank_pip(cards.last().rank)
    }
}

/// Whether at least one card of the sequence is an Ace.
pub open spec fn has_ace(cards: Seq<Card>) -> bool {
    exists|i: int| 0 <= i < cards.len() && cards[i].rank == Rank::Ace
}

/// The blackjack value of a sequence of cards: the hard pip sum, with at most
/// one Ace re-priced from 1 to 11, and only when that keeps the total at 21 or
/// below.
pub open spec fn hand_value(cards: Seq<Card>) -> nat {
    if has_ace(cards) && hard_total(cards) + 10 <= 21 {
        (hard_total(cards) + 10) as nat
    } else {
        hard_total(cards)
    }
}

/// A blackjack: exactly two cards worth 21 together.
pub open spec fn is_blackjack_spec(cards: Seq<Card>) -> bool {
    cards.len() == 2 && hand_value(cards) == 21
}

/// A bust: a value above 21.
pub open spec fn is_bust_spec(cards: Seq<Card>) -> bool {
    hand_value(cards) > 21
}

/// A soft hand: an Ace is present, the hand does not bust, and the value
/// differs from the hard pip sum, so a promotion actually happened.
pub open spec fn is_soft_spec(cards: Seq<Card>) -> bool {
    has_ace(cards) && hand_value(cards) <= 21 && hand_value(cards) != hard_total(cards)
}

/// Appending a card adds its pip value to the hard total of the prefix.
proof fn lemma_hard_total_take_step(cards: Seq<Card>, i: int)
    requires
        0 <= i < cards.len(),
    ensures
        hard_total(cards.take(i + 1)) == hard_total(cards.take(i)) + rank_pip(cards[i].rank),
{
    assert(cards.take(i + 1).drop_last() =~= cards.take(i));
    assert(cards.take(i + 1).last() == cards[i]);
}

/// The hard total of a prefix never exceeds the hard total of the whole hand.
proof fn lemma_hard_total_take_le(cards: Seq<Card>, i: int)
    requires
        0 <= i <= cards.len(),
    ensures
        hard_total(cards.take(i)) <= hard_total(cards),
    decreases cards.len() - i,
{
    if i == cards.len() {
        assert(cards.take(i) =~= cards);
    } else {
        lemma_hard_total_take_step(cards, i);
        lemma_hard_total_take_le(cards, i + 1);
    }
}

/// A prefix holds an Ace exactly when the shorter prefix does or the card
/// just past it is an Ace.
proof fn lemma_has_ace_take_step(cards: Seq<Card>, i: int)
    requires
        0 <= i < cards.len(),
    ensures
        has_ace(cards.take(i + 1)) <==> (has_ace(cards.take(i)) || cards[i].rank == Rank::Ace),
{
    let pre = cards.take(i);
    let cur = cards.take(i + 1);
    if has_ace(cur) {
        let j = choose|j: int| 0 <= j < cur.len() && cur[j].rank == Rank::Ace;
        if j < i {
            assert(pre[j].rank == Rank::Ace);
            assert(has_ace(pre));
        } else {
            assert(cards[i].rank == Rank::Ace);
        }
    }
    if has_ace(pre) {
        let j = choose|j: int| 0 <= j < pre.len() && pre[j].rank == Rank::Ace;
        assert(cur[j].rank == Rank::Ace);
        assert(has_ace(cur));
    }
    if cards[i].rank == Rank::Ace {
        assert(cur[i].rank == Rank::Ace);
        assert(has_ace(cur));
    }
}

/// A hand with no Ace is never soft, and its value is exactly the sum of the
/// pip values of its cards.
pub proof fn lemma_no_ace_hand(cards: Seq<Card>)
    requires
        !has_ace(cards),
    ensures
        hand_value(cards) == hard_total(cards),
        !is_soft_spec(cards),
{
}

/// With at least one Ace and hard sum `h`, the value is `h + 10` when that
/// stays at or below 21 and `h` otherwise: a single promotion at most, no
/// matter how many Aces the hand holds.
pub proof fn lemma_ace_promotion(cards: Seq<Card>)
    requires
        has_ace(cards),
    ensures
        hard_total(cards) + 10 <= 21 ==> hand_value(cards) == hard_total(cards) + 10,
        hard_total(cards) + 10 > 21 ==> hand_value(cards) == hard_total(cards),
{
}

/// A hand that busts is never soft: softness requires the promoted value to
/// stay at or below 21.
pub proof fn lemma_bust_is_never_soft(cards: Seq<Card>)
    ensures
        is_bust_spec(cards) ==> !is_soft_spec(cards),
{
}

/// Only a two-card 21 is a blackjack; a 21 made of any other number of cards,
/// such as a three-card 21, never is.
pub proof fn lemma_blackjack_needs_two_cards(cards: Seq<Card>)
    ensures
        is_blackjack_spec(cards) <==> (cards.len() == 2 && hand_value(cards) == 21),
        cards.len() != 2 ==> !is_blackjack_spec(cards),
{
}

/// The cards one participant holds during one round, in deal order. Cards are
/// only ever appended; the blackjack value is recomputed from the full
/// sequence on every call.
#[derive(Clone, Debug, PartialEq, Eq)]
pub struct Hand {
    cards: Vec<Card>,
}

impl View for Hand {
    type V = Seq<Card>;

    closed spec fn view(&self) -> Seq<Card> {
        self.cards@
    }
}

impl Hand {
    /// An empty hand.
    pub fn new() -> (h: Hand)
        ensures
            h@ == Seq::<Card>::empty(),
    {
        let cards: Vec<Card> = Vec::new();
        proof {
            assert(cards@ =~= Seq::<Card>::empty());
        }
        Hand { cards }
    }

    /// Appends a card at the end of the hand. Any card is accepted; validity
    /// of the card mix is the dealer's concern, not the hand's. The appended
    /// card adds its pip value to the hard total.
    pub fn add_card(&mut self, card: Card)
        ensures
            final(self)@ == old(self)@.push(card),
            hard_total(final(self)@) == hard_total(old(self)@) + rank_pip(card.rank),
            has_ace(final(self)@) <==> (has_ace(old(self)@) || card.rank == Rank::Ace),
    {
        self.cards.push(card);
        proof {
            let pre = old(self)@;
            let post = self@;
            assert(post.drop_last() =~= pre);
            assert(post.last() == card);
            lemma_has_ace_take_step(post, post.len() - 1);
            assert(post.take(post.len() as int) =~= post);
            assert(post.take(post.len() - 1) =~= pre);
        }
    }

    /// The cards of the hand, in deal order.
    pub fn cards(&self) -> (r: &[Card])
        ensures
            r@ == self@,
    {
        self.cards.as_slice()
    }

    /// The blackjack value of the hand: pip sum with at most one Ace promoted
    /// from 1 to 11, and only when the promotion keeps the total at 21 or
    /// below.
    #[verifier::loop_isolation(false)]
    pub fn value(&self) -> (v: u8)
        requires
            hard_total(self@) + 10 <= u8::MAX,
        ensures
            v == hand_value(self@),
    {
        let mut total: u8 = 0;
        let mut seen_ace: bool = false;
        let n: usize = self.cards.len();
        for i in 0..n
            invariant
                total == hard_total(self@.take(i as int)),
                seen_ace == has_ace(self@.take(i as int)),
        {
            proof {
                lemma_hard_total_take_step(self@, i as int);
                lemma_hard_total_take_le(self@, i + 1);
                lemma_has_ace_take_step(self@, i as int);
            }
            total = total + self.cards[i].pip_value();
            if self.cards[i].rank == Rank::Ace {
                seen_ace = true;
            }
        }
        proof {
            assert(self@.take(n as int) =~= self@);
        }
        if seen_ace && total <= 11 {
            total + 10
        } else {
            total
        }
    }

    /// Whether the hand is a blackjack: exactly two cards worth 21 together.
    pub fn is_blackjack(&self) -> (b: bool)
        requires
            hard_total(self@) + 10 <= u8::MAX,
        ensures
            b == is_blackjack_spec(self@),
    {
        self.cards.len() == 2 && self.value() == 21
    }

    /// Whether the hand busts: its value is above 21.
    pub fn is_bust(&self) -> (b: bool)
        requires
            hard_total(self@) + 10 <= u8::MAX,
        ensures
            b == is_bust_spec(self@),
    {
        self.value() > 21
    }

    /// Whether the hand is soft: an Ace is present, the hand does not bust,
    /// and the value differs from the all-Aces-as-1 hard total.
    #[verifier::loop_isolation(false)]
    pub fn is_soft(&self) -> (b: bool)
        requires
            hard_total(self@) + 10 <= u8::MAX,
        ensures
            b == is_soft_spec(self@),
    {
        let hand_value = self.value();
        if hand_value > 21 {
            return false;
        }
        let mut hard: u8 = 0;
        let mut seen_ace: bool = false;
        let n: usize = self.cards.len();
        for i in 0..n
            invariant
                hard == hard_total(self@.take(i as int)),
                seen_ace == has_ace(self@.take(i as int)),
        {
            proof {
                lemma_hard_total_take_step(self@, i as int);
                lemma_hard_total_take_le(self@, i + 1);
                lemma_has_ace_take_step(self@, i as int);
            }
            hard = hard + self.cards[i].pip_value();
            if self.cards[i].rank == Rank::Ace {
                seen_ace = true;
            }
        }
        proof {
            assert(self@.take(n as int) =~= self@);
        }
        seen_ace && hand_value != hard
    }
}

impl Default for Hand {
    /// An empty hand.
    fn default() -> (h: Self)
        ensures
            h@ == Seq::<Card>::empty(),
    {
        Hand::new()
    }
}

} // verus!
