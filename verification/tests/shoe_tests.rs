use blackjack_core::card::Card;
use blackjack_core::error::{ConfigError, GameError};
use blackjack_core::shoe::{Penetration, Shoe};

#[test]
fn creation_single_deck() {
    let mut shoe = Shoe::new(1, 40, Some(42)).unwrap();
    assert!(shoe.deal().is_ok());
}

#[test]
fn creation_invalid_decks() {
    assert!(Shoe::new(0, 40, Some(42)).is_err());
}

#[test]
fn creation_invalid_cut_zero() {
    assert!(Shoe::new(6, 0, Some(42)).is_err());
}

#[test]
fn creation_invalid_cut_too_high() {
    assert!(Shoe::new(6, 313, Some(42)).is_err());
}

#[test]
fn cut_at_total_cards_valid() {
    let shoe = Shoe::new(6, 312, Some(42));
    assert!(shoe.is_ok());
}

#[test]
fn deals_until_cut() {
    let mut shoe = Shoe::new(1, 10, Some(42)).unwrap();
    for _ in 0..10 {
        assert!(shoe.deal().is_ok());
    }
    assert!(shoe.deal().is_err());
}

#[test]
fn shuffle_resets() {
    let mut shoe = Shoe::new(1, 10, Some(42)).unwrap();
    for _ in 0..10 {
        shoe.deal().unwrap();
    }
    assert!(shoe.deal().is_err());

    shoe.shuffle();
    assert!(shoe.deal().is_ok());
}

#[test]
fn deterministic_with_seed() {
    let mut shoe1 = Shoe::new(1, 52, Some(123)).unwrap();
    let mut shoe2 = Shoe::new(1, 52, Some(123)).unwrap();

    for _ in 0..52 {
        assert_eq!(shoe1.deal().unwrap(), shoe2.deal().unwrap());
    }
}

#[test]
fn deterministic_across_shuffles() {
    let mut shoe1 = Shoe::new(2, 40, Some(7)).unwrap();
    let mut shoe2 = Shoe::new(2, 40, Some(7)).unwrap();

    for _ in 0..5 {
        assert_eq!(shoe1.deal().unwrap(), shoe2.deal().unwrap());
    }
    shoe1.shuffle();
    shoe2.shuffle();
    for _ in 0..40 {
        assert_eq!(shoe1.deal().unwrap(), shoe2.deal().unwrap());
    }
}

#[test]
fn creation_errors_name_the_parameters() {
    assert_eq!(Shoe::new(0, 40, Some(42)).unwrap_err(), ConfigError::InvalidDecks(0));
    assert_eq!(Shoe::new(6, 313, Some(42)).unwrap_err(), ConfigError::InvalidCutPosition(313, 312));
    assert_eq!(Shoe::new(6, 0, Some(42)).unwrap_err(), ConfigError::InvalidCutPosition(0, 312));
}

#[test]
fn cut_reports_reshuffle_condition() {
    let mut shoe = Shoe::new(1, 1, Some(5)).unwrap();
    assert!(shoe.deal().is_ok());
    assert_eq!(shoe.deal().unwrap_err(), GameError::ShoeNeedsReshuffling);
}

#[test]
fn peek_does_not_advance() {
    let mut shoe = Shoe::new(1, 10, Some(9)).unwrap();
    let peeked = shoe.peek().unwrap();
    let dealt = shoe.deal().unwrap();
    assert_eq!(peeked, dealt);
}

#[test]
fn shoe_deals_a_full_permuted_deck() {
    let mut shoe = Shoe::new(1, 52, Some(42)).unwrap();
    let mut dealt: Vec<Card> = Vec::new();
    for _ in 0..52 {
        dealt.push(shoe.deal().unwrap());
    }
    // Every card of the standard deck comes out exactly once...
    let deck = Card::standard_deck();
    for card in &deck {
        assert_eq!(dealt.iter().filter(|c| *c == card).count(), 1);
    }
    // ...and the order is genuinely shuffled, not the unshuffled base order.
    assert_ne!(dealt, deck);
}

#[test]
fn penetration_from_percent() {
    assert_eq!(Penetration::from_percent(75), Penetration::Percent(75));
    assert_eq!(Penetration::from_percent(1), Penetration::Percent(1));
    assert_eq!(Penetration::from_percent(100), Penetration::Percent(100));
    assert_eq!(Penetration::from_percent(0), Penetration::P75);
    assert_eq!(Penetration::from_percent(101), Penetration::P75);
}

#[test]
fn penetration_places_cut_card() {
    // 75% of a six-deck shoe: ceil(0.75 * 312) = 234 cards are dealable.
    let mut shoe = Shoe::with_penetration(6, Penetration::P75, Some(11)).unwrap();
    for _ in 0..234 {
        assert!(shoe.deal().is_ok());
    }
    assert_eq!(shoe.deal().unwrap_err(), GameError::ShoeNeedsReshuffling);
}

#[test]
fn penetration_full_deals_everything() {
    let mut shoe = Shoe::with_penetration(1, Penetration::Full, Some(3)).unwrap();
    for _ in 0..52 {
        assert!(shoe.deal().is_ok());
    }
    assert!(shoe.deal().is_err());
}

#[test]
fn penetration_zero_decks_refused() {
    assert_eq!(
        Shoe::with_penetration(0, Penetration::P50, Some(3)).unwrap_err(),
        ConfigError::InvalidDecks(0)
    );
}

#[test]
fn unseeded_shoe_deals() {
    let mut shoe = Shoe::new(1, 52, None).unwrap();
    let mut dealt: Vec<Card> = Vec::new();
    for _ in 0..52 {
        dealt.push(shoe.deal().unwrap());
    }
    let deck = Card::standard_deck();
    for card in &deck {
        assert_eq!(dealt.iter().filter(|c| *c == card).count(), 1);
    }
}
