use vstd::prelude::*;

use crate::card::Card;
use crate::hand::{hand_value, hard_total, is_blackjack_spec, Hand};
use crate::rules::Rules;

verus! {

/// The ratio a winning blackjack is paid at: the classic 3:2, the
/// short-paying 6:5 found on some strips, or an arbitrary
/// numerator:denominator pair.
#[derive(Copy, Clone, Debug)]
pub enum BlackjackPayout {
    Standard,
    Vegas,
    Custom { numerator: u32, denominator: u32 },
}

/// A ratio is usable when its denominator is not zero; the two preset ratios
/// always are.
pub open spec fn ratio_valid(ratio: BlackjackPayout) -> bool {
    ratio matches BlackjackPayout::Custom { denominator, .. } ==> denominator != 0
}

/// The blackjack bonus for a stake: the stake multiplied first and divided
/// second, in whole-credit integer arithmetic, so an uneven ratio truncates.
pub open spec fn ratio_bonus(bet: int, ratio: BlackjackPayout) -> int {
    match ratio {
        BlackjackPayout::Standard => bet * 3 / 2,
        BlackjackPayout::Vegas => bet * 6 / 5,
        BlackjackPayout::Custom { numerator, denominator } => bet * numerator
            / (denominator as int),
    }
}

/// The gross credits returned to the player for one finished round: 0 for a
/// player bust or a lost comparison, twice the stake for a dealer bust or an
/// ordinary win, stake plus bonus for a winning blackjack, and the bare stake
/// for a push. Player bust is checked before dealer bust.
pub open spec fn payout_spec(bet: int, player: Seq<Card>, dealer: Seq<Card>, ratio: BlackjackPayout) -> int {
    if hand_value(player) > 21 {
        0
    } else if hand_value(dealer) > 21 {
        bet * 2
    } else if hand_value(player) > hand_value(dealer) {
        if is_blackjack_spec(player) {
            bet + ratio_bonus(bet, ratio)
        } else {
            bet * 2
        }
    } else if hand_value(player) < hand_value(dealer) {
        0
    } else {
        bet
    }
}

/// The insurance settlement: the stake paid at 2:1 when the dealer has a
/// blackjack, forfeited otherwise.
pub open spec fn insurance_spec(bet: int, dealer: Seq<Card>) -> int {
    if is_blackjack_spec(dealer) {
        bet * 2
    } else {
        0
    }
}

/// The bonus paid on top of the returned stake for a winning blackjack.
fn calculate_payout_for_blackjack(bet: u32, blackjack_payout: BlackjackPayout) -> (r: u64)
    requires
        ratio_valid(blackjack_payout),
    ensures
        r == ratio_bonus(bet as int, blackjack_payout),
        bet + r <= u64::MAX,
{
    let (numerator, denominator): (u32, u32) = match blackjack_payout {
        BlackjackPayout::Standard => (3, 2),
        BlackjackPayout::Vegas => (6, 5),
        BlackjackPayout::Custom { numerator, denominator } => (numerator, denominator),
    };
    proof {
        assert((bet as int) * (numerator as int) < 0x10000000000000000int) by (nonlinear_arith)
            requires
                0 <= bet < 0x100000000,
                0 <= numerator < 0x100000000,
        ;
    }
    let product: u64 = bet as u64 * numerator as u64;
    let bonus: u64 = product / denominator as u64;
    proof {
        vstd::arithmetic::div_mod::lemma_div_nonincreasing(product as int, denominator as int);
        assert((bet as int) + (product as int) <= u64::MAX) by (nonlinear_arith)
            requires
                0 <= bet < 0x100000000,
                0 <= numerator < 0x100000000,
                product == (bet as int) * (numerator as int),
        ;
    }
    bonus
}

/// The gross credits returned to the player for one finished round, given the
/// stake, both final hands, and the table rules. Pure and idempotent; both
/// hands are assumed valid, completed hands for a finished round. Decision
/// order: player bust, then dealer bust, then the value comparison, where a
/// winning blackjack is paid at the configured ratio, a loss returns 0, and a
/// push returns the bare stake.
pub fn calculate_payout(bet: u32, player_hand: &Hand, dealer_hand: &Hand, rules: &Rules) -> (r:
    u64)
    requires
        hard_total(player_hand@) + 10 <= u8::MAX,
        hard_total(dealer_hand@) + 10 <= u8::MAX,
        ratio_valid(rules.blackjack_payout),
    ensures
        r == payout_spec(bet as int, player_hand@, dealer_hand@, rules.blackjack_payout),
{
    if player_hand.is_bust() {
        return 0;
    }
    if dealer_hand.is_bust() {
        return bet as u64 * 2;
    }
    let player_hand_value = player_hand.value();
    let dealer_hand_value = dealer_hand.value();
    if player_hand_value > dealer_hand_value {
        if player_hand.is_blackjack() {
            bet as u64 + calculate_payout_for_blackjack(bet, rules.blackjack_payout)
        } else {
            bet as u64 * 2
        }
    } else if player_hand_value < dealer_hand_value {
        0
    } else {
        bet as u64
    }
}

/// The insurance settlement, independent of the main bet: the insurance stake
/// is paid at 2:1 when the dealer has a blackjack and forfeited otherwise.
/// The caller sums this with the main-bet settlement.
pub fn calculate_insurance_payout(insurance_bet: u32, dealer_hand: &Hand) -> (r: u64)
    requires
        hard_total(dealer_hand@) + 10 <= u8::MAX,
    ensures
        r == insurance_spec(insurance_bet as int, dealer_hand@),
{
    if dealer_hand.is_blackjack() {
        insurance_bet as u64 * 2
    } else {
        0
    }
}

/// Marker returned by the reserved side-bet settlements: their payout tables
/// are not specified yet, and a caller must be able to tell "unsupported"
/// apart from a lost bet, which would return zero.
#[derive(Copy, Clone, Debug, PartialEq, Eq, Structural)]
pub struct UnsupportedSideBet;

/// Perfect Pairs settlement; reserved, not yet supported.
pub fn calculate_perfect_pairs_payout(_side_bet: u32, _player_hand: &Hand) -> (r: Result<
    u64,
    UnsupportedSideBet,
>)
    ensures
        r is Err,
{
    Err(UnsupportedSideBet)
}

/// 21+3 settlement; reserved, not yet supported.
pub fn calculate_twenty_plus_3_payout(_side_bet: u32, _player_hand: &Hand) -> (r: Result<
    u64,
    UnsupportedSideBet,
>)
    ensures
        r is Err,
{
    Err(UnsupportedSideBet)
}

/// Royal Match settlement; reserved, not yet supported.
pub fn calculate_royal_match_payout(_side_bet: u32, _player_hand: &Hand) -> (r: Result<
    u64,
    UnsupportedSideBet,
>)
    ensures
        r is Err,
{
    Err(UnsupportedSideBet)
}

/// Lucky Ladies settlement; reserved, not yet supported.
pub fn calculate_lucky_ladies_payout(_side_bet: u32, _player_hand: &Hand) -> (r: Result<
    u64,
    UnsupportedSideBet,
>)
    ensures
        r is Err,
{
    Err(UnsupportedSideBet)
}

/// Bust It settlement; reserved, not yet supported.
pub fn calculate_bust_it_payout(_side_bet: u32, _player_hand: &Hand) -> (r: Result<
    u64,
    UnsupportedSideBet,
>)
    ensures
        r is Err,
{
    Err(UnsupportedSideBet)
}

/// Super 7s settlement; reserved, not yet supported.
pub fn calculate_super_7s_payout(_side_bet: u32, _player_hand: &Hand) -> (r: Result<
    u64,
    UnsupportedSideBet,
>)
    ensures
        r is Err,
{
    Err(UnsupportedSideBet)
}

/// Lucky Lucky settlement; reserved, not yet supported.
pub fn calculate_lucky_lucky_payout(_side_bet: u32, _player_hand: &Hand) -> (r: Result<
    u64,
    UnsupportedSideBet,
>)
    ensures
        r is Err,
{
    Err(UnsupportedSideBet)
}

/// Pair Squared settlement; reserved, not yet supported.
pub fn calculate_pair_squared_payout(_side_bet: u32, _player_hand: &Hand) -> (r: Result<
    u64,
    UnsupportedSideBet,
>)
    ensures
        r is Err,
{
    Err(UnsupportedSideBet)
}

/// Blackjack Spin settlement; reserved, not yet supported.
pub fn calculate_blackjack_spin_payout(_side_bet: u32, _player_hand: &Hand) -> (r: Result<
    u64,
    UnsupportedSideBet,
>)
    ensures
        r is Err,
{
    Err(UnsupportedSideBet)
}

/// Match the Deal settlement; reserved, not yet supported.
pub fn calculate_match_the_deal_payout(_side_bet: u32, _player_hand: &Hand) -> (r: Result<
    u64,
    UnsupportedSideBet,
>)
    ensures
        r is Err,
{
    Err(UnsupportedSideBet)
}

/// Buster Blackjack settlement; reserved, not yet supported.
pub fn calculate_buster_blackjack_payout(_side_bet: u32, _player_hand: &Hand) -> (r: Result<
    u64,
    UnsupportedSideBet,
>)
    ensures
        r is Err,
{
    Err(UnsupportedSideBet)
}

/// Bet the Set settlement; reserved, not yet supported.
pub fn calculate_bet_the_set_payout(_side_bet: u32, _player_hand: &Hand) -> (r: Result<
    u64,
    UnsupportedSideBet,
>)
    ensures
        r is Err,
{
    Err(UnsupportedSideBet)
}

/// Top 3 settlement; reserved, not yet supported.
pub fn calculate_top_3_payout(_side_bet: u32, _player_hand: &Hand) -> (r: Result<
    u64,
    UnsupportedSideBet,
>)
    ensures
        r is Err,
{
    Err(UnsupportedSideBet)
}

/// Hot 3 settlement; reserved, not yet supported.
pub fn calculate_hot_3_payout(_side_bet: u32, _player_hand: &Hand) -> (r: Result<
    u64,
    UnsupportedSideBet,
>)
    ensures
        r is Err,
{
    Err(UnsupportedSideBet)
}

/// Kings Bounty settlement; reserved, not yet supported.
pub fn calculate_kings_bounty_payout(_side_bet: u32, _player_hand: &Hand) -> (r: Result<
    u64,
    UnsupportedSideBet,
>)
    ensures
        r is Err,
{
    Err(UnsupportedSideBet)
}

} // verus!
