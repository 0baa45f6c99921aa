use blackjack_core::card::{Card, Rank, Suit};
use blackjack_core::hand::Hand;
use blackjack_core::payout::{
    calculate_bet_the_set_payout, calculate_blackjack_spin_payout, calculate_bust_it_payout,
    calculate_buster_blackjack_payout, calculate_hot_3_payout, calculate_insurance_payout,
    calculate_kings_bounty_payout, calculate_lucky_ladies_payout, calculate_lucky_lucky_payout,
    calculate_match_the_deal_payout, calculate_pair_squared_payout, calculate_payout,
    calculate_perfect_pairs_payout, calculate_royal_match_payout, calculate_super_7s_payout,
    calculate_top_3_payout, calculate_twenty_plus_3_payout, BlackjackPayout,
};
use blackjack_core::rules::Rules;

fn make_rules() -> Rules {
    Rules {
        min_bet: 10,
        max_bet: 500,
        starting_credits: 1000,
        blackjack_payout: BlackjackPayout::Standard,
        num_decks: 6,
        split_limit: 3,
        dealer_hits_soft_17: false,
        surrender_allowed: false,
        resplit_aces_allowed: false,
        hit_split_aces_allowed: false,
        double_after_split_allowed: true,
        insurance_enabled: false,
        perfect_pairs_enabled: false,
        twenty_one_plus_3_enabled: false,
        royal_match_enabled: false,
    }
}

fn make_hand(cards: &[(Rank, Suit)]) -> Hand {
    let mut hand = Hand::new();
    for &(rank, suit) in cards {
        hand.add_card(Card::new(rank, suit));
    }
    hand
}

#[test]
fn player_bust() {
    let rules = make_rules();
    let player = make_hand(&[
        (Rank::King, Suit::Spades),
        (Rank::Queen, Suit::Hearts),
        (Rank::Five, Suit::Clubs),
    ]);
    let dealer = make_hand(&[(Rank::Ten, Suit::Spades), (Rank::Seven, Suit::Hearts)]);

    assert_eq!(calculate_payout(100, &player, &dealer, &rules), 0);
}

#[test]
fn dealer_bust() {
    let rules = make_rules();
    let player = make_hand(&[(Rank::Ten, Suit::Spades), (Rank::Seven, Suit::Hearts)]);
    let dealer = make_hand(&[
        (Rank::King, Suit::Spades),
        (Rank::Queen, Suit::Hearts),
        (Rank::Five, Suit::Clubs),
    ]);

    assert_eq!(calculate_payout(100, &player, &dealer, &rules), 200);
}

#[test]
fn player_wins() {
    let rules = make_rules();
    let player = make_hand(&[(Rank::Ten, Suit::Spades), (Rank::Nine, Suit::Hearts)]);
    let dealer = make_hand(&[(Rank::Ten, Suit::Spades), (Rank::Seven, Suit::Hearts)]);

    assert_eq!(calculate_payout(100, &player, &dealer, &rules), 200);
}

#[test]
fn dealer_wins() {
    let rules = make_rules();
    let player = make_hand(&[(Rank::Ten, Suit::Spades), (Rank::Seven, Suit::Hearts)]);
    let dealer = make_hand(&[(Rank::Ten, Suit::Spades), (Rank::Nine, Suit::Hearts)]);

    assert_eq!(calculate_payout(100, &player, &dealer, &rules), 0);
}

#[test]
fn push() {
    let rules = make_rules();
    let player = make_hand(&[(Rank::Ten, Suit::Spades), (Rank::Seven, Suit::Hearts)]);
    let dealer = make_hand(&[(Rank::King, Suit::Spades), (Rank::Seven, Suit::Hearts)]);

    assert_eq!(calculate_payout(100, &player, &dealer, &rules), 100);
}

#[test]
fn player_blackjack_wins() {
    let rules = make_rules();
    let player = make_hand(&[(Rank::Ace, Suit::Spades), (Rank::King, Suit::Hearts)]);
    let dealer = make_hand(&[(Rank::Ten, Suit::Spades), (Rank::Nine, Suit::Hearts)]);

    assert_eq!(calculate_payout(100, &player, &dealer, &rules), 250);
}

#[test]
fn both_blackjack_push() {
    let rules = make_rules();
    let player = make_hand(&[(Rank::Ace, Suit::Spades), (Rank::King, Suit::Hearts)]);
    let dealer = make_hand(&[(Rank::Ace, Suit::Hearts), (Rank::Queen, Suit::Spades)]);

    assert_eq!(calculate_payout(100, &player, &dealer, &rules), 100);
}

#[test]
fn blackjack_vegas_payout() {
    let mut rules = make_rules();
    rules.blackjack_payout = BlackjackPayout::Vegas;

    let player = make_hand(&[(Rank::Ace, Suit::Spades), (Rank::King, Suit::Hearts)]);
    let dealer = make_hand(&[(Rank::Ten, Suit::Spades), (Rank::Nine, Suit::Hearts)]);

    assert_eq!(calculate_payout(100, &player, &dealer, &rules), 220);
}

#[test]
fn blackjack_custom_2_to_1() {
    let mut rules = make_rules();
    rules.blackjack_payout = BlackjackPayout::Custom { numerator: 2, denominator: 1 };

    let player = make_hand(&[(Rank::Ace, Suit::Spades), (Rank::King, Suit::Hearts)]);
    let dealer = make_hand(&[(Rank::Ten, Suit::Spades), (Rank::Nine, Suit::Hearts)]);

    assert_eq!(calculate_payout(100, &player, &dealer, &rules), 300);
}

#[test]
fn blackjack_bonus_truncates() {
    let rules = make_rules();
    let player = make_hand(&[(Rank::Ace, Suit::Spades), (Rank::King, Suit::Hearts)]);
    let dealer = make_hand(&[(Rank::Ten, Suit::Spades), (Rank::Nine, Suit::Hearts)]);

    // 101 * 3 / 2 truncates to 151: the stake makes 252, not 252.5 rounded.
    assert_eq!(calculate_payout(101, &player, &dealer, &rules), 252);
}

#[test]
fn insurance_dealer_blackjack() {
    let dealer = make_hand(&[(Rank::Ace, Suit::Hearts), (Rank::Queen, Suit::Spades)]);
    assert_eq!(calculate_insurance_payout(50, &dealer), 100);
}

#[test]
fn insurance_no_dealer_blackjack() {
    let dealer = make_hand(&[(Rank::Ten, Suit::Spades), (Rank::Nine, Suit::Hearts)]);
    assert_eq!(calculate_insurance_payout(50, &dealer), 0);
}

#[test]
fn side_bets_unsupported() {
    let hand = make_hand(&[(Rank::Ace, Suit::Spades), (Rank::Ace, Suit::Hearts)]);
    assert!(calculate_perfect_pairs_payout(10, &hand).is_err());
    assert!(calculate_twenty_plus_3_payout(10, &hand).is_err());
    assert!(calculate_royal_match_payout(10, &hand).is_err());
    assert!(calculate_lucky_ladies_payout(10, &hand).is_err());
    assert!(calculate_bust_it_payout(10, &hand).is_err());
    assert!(calculate_super_7s_payout(10, &hand).is_err());
    assert!(calculate_lucky_lucky_payout(10, &hand).is_err());
    assert!(calculate_pair_squared_payout(10, &hand).is_err());
    assert!(calculate_blackjack_spin_payout(10, &hand).is_err());
    assert!(calculate_match_the_deal_payout(10, &hand).is_err());
    assert!(calculate_buster_blackjack_payout(10, &hand).is_err());
    assert!(calculate_bet_the_set_payout(10, &hand).is_err());
    assert!(calculate_top_3_payout(10, &hand).is_err());
    assert!(calculate_hot_3_payout(10, &hand).is_err());
    assert!(calculate_kings_bounty_payout(10, &hand).is_err());
}
