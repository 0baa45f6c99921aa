use vstd::prelude::*;

use crate::card::{standard_deck_seq, Card};
use crate::error::{ConfigError, GameError};

verus! {

/// The deck order that `n` standard decks concatenated in the fixed
/// enumeration order give before any shuffle.
pub open spec fn multi_deck(n: nat) -> Seq<Card>
    decreases n,
{
    if n == 0 {
        Seq::empty()
    } else {
        multi_deck((n - 1) as nat) + standard_deck_seq()
    }
}

/// `n` concatenated decks hold `52 * n` cards.
pub proof fn lemma_multi_deck_len(n: nat)
    ensures
        multi_deck(n).len() == 52 * n,
    decreases n,
{
    if n > 0 {
        lemma_multi_deck_len((n - 1) as nat);
    }
}

/// The deck order that the seeded shuffle stream leaves after `rounds`
/// passes over `deck`. The stream is a pure function of the seed, so this
/// order is too; its exact value is the pseudorandom generator's business.
pub uninterp spec fn shuffle_of(deck: Seq<Card>, seed: u64, rounds: u64) -> Seq<Card>;

/// Relies on rand_chacha's `ChaCha8Rng::seed_from_u64` and rand's
/// `SliceRandom::shuffle`: both are documented-deterministic, so replaying
/// `rounds` shuffle passes of one seeded stream over `base` yields a deck
/// order that is a function of `base`, `seed` and `rounds` alone. Each pass
/// permutes the slice in place, so the result is a rearrangement of `base`.
#[verifier::external_body]
fn shuffled_deck(base: &Vec<Card>, seed: u64, rounds: u64) -> (r: Vec<Card>)
    ensures
        r@ == shuffle_of(base@, seed, rounds),
        r@.len() == base@.len(),
        r@.to_multiset() == base@.to_multiset(),
{
    let mut cards = base.clone();
    let mut rng = <rand_chacha::ChaCha8Rng as rand::SeedableRng>::seed_from_u64(seed);
    for _ in 0..rounds {
        rand::seq::SliceRandom::shuffle(cards.as_mut_slice(), &mut rng);
    }
    cards
}

/// Relies on rand's `random`, drawing one machine-entropy word for a table
/// that was constructed without a replay seed; nothing is promised of the
/// value.
#[verifier::external_body]
fn entropy_seed() -> u64 {
    rand::random()
}

/// Builds the unshuffled concatenation of `num_decks` standard decks.
#[verifier::loop_isolation(false)]
fn build_base_deck(num_decks: u8) -> (base: Vec<Card>)
    ensures
        base@ == multi_deck(num_decks as nat),
{
    let mut base: Vec<Card> = Vec::new();
    proof {
        assert(base@ =~= multi_deck(0));
    }
    let mut d: u8 = 0;
    while d < num_decks
        invariant
            d <= num_decks,
            base@ == multi_deck(d as nat),
        decreases num_decks - d,
    {
        let mut deck = Card::standard_deck();
        base.append(&mut deck);
        d = d + 1;
    }
    base
}

/// How much of the shoe is dealt before the cut card calls for a reshuffle:
/// the whole shoe, one of the common preset fractions, or an explicit
/// percentage between 1 and 100.
#[derive(Copy, Clone, Debug, PartialEq, Eq, Structural)]
pub enum Penetration {
    Full,
    P75,
    P50,
    P25,
    Percent(u8),
}

impl Penetration {
    /// The playable share of the shoe, in whole percent. An explicit
    /// percentage outside 1..=100 falls back to the 75% default.
    pub open spec fn percent(self) -> int {
        match self {
            Penetration::Full => 100,
            Penetration::P75 => 75,
            Penetration::P50 => 50,
            Penetration::P25 => 25,
            Penetration::Percent(p) => if 1 <= p <= 100 {
                p as int
            } else {
                75
            },
        }
    }

    /// The cut index this penetration yields over `total` cards: the ceiling
    /// of the fraction, in integer arithmetic.
    pub open spec fn cut_index_spec(self, total: int) -> int {
        (self.percent() * total + 99) / 100
    }

    /// An explicit percentage; a value outside 1..=100 falls back to the 75%
    /// default rather than failing, so a caller needing strict validation
    /// must check the range first.
    pub fn from_percent(pct: u8) -> (r: Penetration)
        ensures
            1 <= pct <= 100 ==> r == Penetration::Percent(pct),
            !(1 <= pct <= 100) ==> r == Penetration::P75,
    {
        if 1 <= pct && pct <= 100 {
            Penetration::Percent(pct)
        } else {
            Penetration::P75
        }
    }

    /// The number of cards dealable before the cut card, over a shoe of
    /// `total_cards` cards.
    pub fn cut_index(self, total_cards: usize) -> (r: usize)
        requires
            total_cards <= 13260,
        ensures
            r == self.cut_index_spec(total_cards as int),
    {
        let pct: usize = match self {
            Penetration::Full => 100,
            Penetration::P75 => 75,
            Penetration::P50 => 50,
            Penetration::P25 => 25,
            Penetration::Percent(p) => if 1 <= p && p <= 100 {
                p as usize
            } else {
                75
            },
        };
        proof {
            assert(pct * total_cards <= 1326000) by (nonlinear_arith)
                requires
                    pct <= 100,
                    total_cards <= 13260,
            ;
        }
        (pct * total_cards + 99) / 100
    }
}

/// The physical stack of `num_decks` shuffled decks that a table deals from.
/// Cards are never removed on a deal: the cursor `top_position` is the only
/// mutable position marker, and dealing is refused once it reaches the cut
/// card at `cut_position`. The shuffle stream is owned per shoe and seeded at
/// construction, so the same seed replays the same card order.
#[derive(Clone, Debug, PartialEq, Eq)]
pub struct Shoe {
    cards: Vec<Card>,
    top_position: usize,
    cut_position: usize,
    num_decks: u8,
    seed: u64,
    rounds: u64,
}

impl Shoe {
    /// The full card order currently loaded, dealt and undealt alike.
    pub closed spec fn cards_seq(&self) -> Seq<Card> {
        self.cards@
    }

    /// The deal cursor: how many cards have been dealt since the last
    /// shuffle.
    pub closed spec fn position(&self) -> int {
        self.top_position as int
    }

    /// The cut index: dealing is refused once the cursor reaches it.
    pub closed spec fn cut(&self) -> int {
        self.cut_position as int
    }

    /// How many standard decks the shoe was built from.
    pub closed spec fn deck_count(&self) -> u8 {
        self.num_decks
    }

    /// The seed the shoe's shuffle stream was started from.
    pub closed spec fn seed_value(&self) -> u64 {
        self.seed
    }

    /// How many shuffle passes the shoe has gone through, the one at
    /// construction included.
    pub closed spec fn shuffle_rounds(&self) -> u64 {
        self.rounds
    }

    /// Structural soundness: at least one deck, a cut index within
    /// `[1, total]`, the cursor at or before the cut, and the loaded card
    /// order being exactly what the seeded shuffle stream leaves after the
    /// recorded number of passes.
    pub closed spec fn wf(&self) -> bool {
        &&& self.num_decks >= 1
        &&& self.cards@.len() == self.num_decks as int * 52
        &&& 1 <= self.cut_position <= self.cards@.len()
        &&& self.top_position <= self.cut_position
        &&& self.rounds >= 1
        &&& self.cards@ == shuffle_of(multi_deck(self.num_decks as nat), self.seed, self.rounds)
    }

    /// Builds a shoe of `num_decks` shuffled decks with the cut card at
    /// `cut_position`, seeding the shuffle stream from `seed` when given and
    /// from machine entropy otherwise. A zero deck count and a cut index
    /// outside `[1, total_cards]` are refused with distinct reasons.
    pub fn new(num_decks: u8, cut_position: usize, seed: Option<u64>) -> (r: Result<
        Shoe,
        ConfigError,
    >)
        ensures
            r is Ok <==> (num_decks >= 1 && 1 <= cut_position <= num_decks as int * 52),
            r matches Ok(s) ==> s.wf(),
            r matches Ok(s) ==> s.deck_count() == num_decks,
            r matches Ok(s) ==> s.cut() == cut_position,
            r matches Ok(s) ==> s.position() == 0,
            r matches Ok(s) ==> s.shuffle_rounds() == 1,
            seed matches Some(v) ==> (r matches Ok(s) ==> s.seed_value() == v),
            num_decks == 0 ==> (r matches Err(e) && e matches ConfigError::InvalidDecks(d)
                && d == num_decks),
            num_decks >= 1 && !(1 <= cut_position <= num_decks as int * 52) ==> (r matches Err(e)
                && e matches ConfigError::InvalidCutPosition(c, t) && c == cut_position
                && t == num_decks as int * 52),
    {
        if num_decks == 0 {
            return Err(ConfigError::InvalidDecks(num_decks));
        }
        let total_cards: usize = num_decks as usize * 52;
        if cut_position == 0 || cut_position > total_cards {
            return Err(ConfigError::InvalidCutPosition(cut_position, total_cards));
        }
        let seed_value: u64 = match seed {
            Some(s) => s,
            None => entropy_seed(),
        };
        let base = build_base_deck(num_decks);
        proof {
            lemma_multi_deck_len(num_decks as nat);
        }
        let cards = shuffled_deck(&base, seed_value, 1);
        Ok(
            Shoe {
                cards,
                top_position: 0,
                cut_position,
                num_decks,
                seed: seed_value,
                rounds: 1,
            },
        )
    }

    /// Builds a shoe whose cut card is placed by a penetration fraction
    /// instead of an explicit index; the default table runs at 75%. Only a
    /// zero deck count is refused: every penetration yields a cut index
    /// within range.
    pub fn with_penetration(num_decks: u8, penetration: Penetration, seed: Option<u64>) -> (r:
        Result<Shoe, ConfigError>)
        ensures
            r is Ok <==> num_decks >= 1,
            r matches Ok(s) ==> s.wf(),
            r matches Ok(s) ==> s.deck_count() == num_decks,
            r matches Ok(s) ==> s.cut() == penetration.cut_index_spec(num_decks as int * 52),
            r matches Ok(s) ==> s.position() == 0,
            r matches Ok(s) ==> s.shuffle_rounds() == 1,
            seed matches Some(v) ==> (r matches Ok(s) ==> s.seed_value() == v),
            num_decks == 0 ==> (r matches Err(e) && e matches ConfigError::InvalidDecks(d) && d
                == num_decks),
    {
        let total_cards: usize = num_decks as usize * 52;
        let cut_position = penetration.cut_index(total_cards);
        proof {
            if num_decks >= 1 {
                let p = penetration.percent();
                let t = total_cards as int;
                assert(52 <= p * t && p * t <= 100 * t) by (nonlinear_arith)
                    requires
                        1 <= p <= 100,
                        52 <= t,
                ;
                vstd::arithmetic::div_mod::lemma_div_is_ordered(100, p * t + 99, 100);
                vstd::arithmetic::div_mod::lemma_div_is_ordered(p * t + 99, 100 * t + 99, 100);
                vstd::arithmetic::div_mod::lemma_div_multiples_vanish_fancy(t, 99, 100);
            }
        }
        Shoe::new(num_decks, cut_position, seed)
    }

    /// Deals the next card and advances the cursor by one. Once the cursor
    /// has reached the cut card the deal is refused with the recoverable
    /// reshuffle condition and the shoe is left unchanged: the caller is
    /// expected to shuffle and retry, not to abort the round.
    pub fn deal(&mut self) -> (r: Result<Card, GameError>)
        requires
            old(self).wf(),
        ensures
            final(self).wf(),
            final(self).cards_seq() == old(self).cards_seq(),
            final(self).cut() == old(self).cut(),
            final(self).deck_count() == old(self).deck_count(),
            final(self).seed_value() == old(self).seed_value(),
            final(self).shuffle_rounds() == old(self).shuffle_rounds(),
            old(self).position() < old(self).cut() ==> (r matches Ok(c) && c == old(
                self,
            ).cards_seq()[old(self).position()] && final(self).position() == old(self).position()
                + 1),
            old(self).position() >= old(self).cut() ==> (r matches Err(
                GameError::ShoeNeedsReshuffling,
            ) && final(self).position() == old(self).position()),
    {
        if self.top_position >= self.cut_position {
            return Err(GameError::ShoeNeedsReshuffling);
        }
        let card = self.cards[self.top_position];
        self.top_position = self.top_position + 1;
        Ok(card)
    }

    /// Returns the next card without advancing the cursor, for dealer
    /// up-card logic; refused at the cut card exactly as a deal is.
    pub fn peek(&self) -> (r: Result<Card, GameError>)
        requires
            self.wf(),
        ensures
            self.position() < self.cut() ==> (r matches Ok(c) && c == self.cards_seq()[self.position()]),
            self.position() >= self.cut() ==> r matches Err(GameError::ShoeNeedsReshuffling),
    {
        if self.top_position >= self.cut_position {
            return Err(GameError::ShoeNeedsReshuffling);
        }
        Ok(self.cards[self.top_position])
    }

    /// Runs one more pass of the shoe's shuffle stream over the full card
    /// set, already-dealt cards included, and resets the cursor to 0. Never
    /// invoked automatically: the orchestrator calls it when a deal reports
    /// the cut has been reached.
    pub fn shuffle(&mut self)
        requires
            old(self).wf(),
            old(self).shuffle_rounds() < u64::MAX,
        ensures
            final(self).wf(),
            final(self).position() == 0,
            final(self).cut() == old(self).cut(),
            final(self).deck_count() == old(self).deck_count(),
            final(self).seed_value() == old(self).seed_value(),
            final(self).shuffle_rounds() == old(self).shuffle_rounds() + 1,
            final(self).cards_seq() == shuffle_of(
                multi_deck(old(self).deck_count() as nat),
                old(self).seed_value(),
                final(self).shuffle_rounds(),
            ),
    {
        let base = build_base_deck(self.num_decks);
        proof {
            lemma_multi_deck_len(self.num_decks as nat);
        }
        self.rounds = self.rounds + 1;
        self.cards = shuffled_deck(&base, self.seed, self.rounds);
        self.top_position = 0;
    }
}

/// Replay guarantee: two shoes built from the same number of decks with the
/// same seed, after the same number of shuffle passes, hold exactly the same
/// cards in the same order — so subjecting them to the same sequence of deal
/// and shuffle calls yields identical cards at every step.
pub proof fn lemma_shoe_determinism(a: &Shoe, b: &Shoe)
    requires
        a.wf(),
        b.wf(),
        a.deck_count() == b.deck_count(),
        a.seed_value() == b.seed_value(),
        a.shuffle_rounds() == b.shuffle_rounds(),
    ensures
        a.cards_seq() == b.cards_seq(),
{
}

} // verus!
