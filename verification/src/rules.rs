use vstd::prelude::*;

use crate::error::ConfigError;
use crate::payout::BlackjackPayout;

verus! {

/// Immutable per-table configuration: bet bounds, the starting credit grant,
/// the blackjack payout ratio, the deck count, the split limit, and the
/// boolean policy flags. Set once at table creation and read-only afterwards.
#[derive(Clone, Debug)]
pub struct Rules {
    pub min_bet: u32,
    pub max_bet: u32,
    pub starting_credits: u32,
    pub blackjack_payout: BlackjackPayout,
    pub num_decks: u8,
    pub split_limit: u8,
    pub dealer_hits_soft_17: bool,
    pub surrender_allowed: bool,
    pub resplit_aces_allowed: bool,
    pub hit_split_aces_allowed: bool,
    pub double_after_split_allowed: bool,
    pub insurance_enabled: bool,
    pub perfect_pairs_enabled: bool,
    pub twenty_one_plus_3_enabled: bool,
    pub royal_match_enabled: bool,
}

/// The stock table configuration: 10..500 bet bounds, 1000 starting credits,
/// the standard 3:2 blackjack ratio, six decks, one split, dealer stands on
/// soft 17, and every side bet switched off.
pub open spec fn default_rules() -> Rules {
    Rules {
        min_bet: 10,
        max_bet: 500,
        starting_credits: 1000,
        blackjack_payout: BlackjackPayout::Standard,
        num_decks: 6,
        split_limit: 1,
        dealer_hits_soft_17: false,
        surrender_allowed: false,
        resplit_aces_allowed: false,
        hit_split_aces_allowed: false,
        double_after_split_allowed: true,
        insurance_enabled: false,
        perfect_pairs_enabled: false,
        twenty_one_plus_3_enabled: false,
        royal_match_enabled: false,
    }
}

/// A configuration is coherent when it has at least one deck and its bet
/// bounds are not inverted.
pub open spec fn rules_valid(r: Rules) -> bool {
    r.num_decks >= 1 && r.min_bet <= r.max_bet
}

impl Rules {
    /// The stock table configuration.
    pub fn new() -> (r: Rules)
        ensures
            r == default_rules(),
    {
        Rules {
            min_bet: 10,
            max_bet: 500,
            starting_credits: 1000,
            blackjack_payout: BlackjackPayout::Standard,
            num_decks: 6,
            split_limit: 1,
            dealer_hits_soft_17: false,
            surrender_allowed: false,
            resplit_aces_allowed: false,
            hit_split_aces_allowed: false,
            double_after_split_allowed: true,
            insurance_enabled: false,
            perfect_pairs_enabled: false,
            twenty_one_plus_3_enabled: false,
            royal_match_enabled: false,
        }
    }

    /// Checks the configuration at table-setup time: a zero deck count and
    /// inverted bet bounds are reported with distinct reasons, so a caller can
    /// present a precise message. Never raised mid-round.
    pub fn validate(&self) -> (r: Result<(), ConfigError>)
        ensures
            r is Ok <==> rules_valid(*self),
            self.num_decks == 0 ==> (r matches Err(e) && e matches ConfigError::InvalidDecks(d)
                && d == self.num_decks),
            self.num_decks >= 1 && self.min_bet > self.max_bet ==> (r matches Err(e)
                && e matches ConfigError::InvalidBetLimits { min, max } && min == self.min_bet
                && max == self.max_bet),
    {
        if self.num_decks == 0 {
            Err(ConfigError::InvalidDecks(self.num_decks))
        } else if self.min_bet > self.max_bet {
            Err(ConfigError::InvalidBetLimits { min: self.min_bet, max: self.max_bet })
        } else {
            Ok(())
        }
    }
}

impl Default for Rules {
    /// The stock table configuration.
    fn default() -> (r: Self)
        ensures
            r == default_rules(),
    {
        Rules::new()
    }
}

} // verus!
