use vstd::prelude::*;

use crate::card::Card;
use crate::hand::Hand;
use uuid::Uuid;

verus! {

/// Declares uuid's `Uuid` so player identities can run through the core as
/// opaque values; the core never looks inside one.
#[verifier::external_type_specification]
#[verifier::external_body]
pub struct ExUuid(Uuid);

/// Relies on uuid's derived `Uuid::clone`: a `Uuid` is a plain 128-bit value
/// and cloning it copies the value unchanged.
pub assume_specification[ <Uuid as Clone>::clone ](u: &Uuid) -> (r: Uuid)
    ensures
        r == *u,
;

/// A seated participant: identity, credit balance and role flags, owned by
/// the table for the player's session lifetime.
#[derive(Clone, Debug)]
pub struct Player {
    pub id: Uuid,
    pub name: String,
    pub credits: u32,
    pub is_spectator: bool,
    pub is_bot: bool,
    pub is_host: bool,
}

/// One player's stake in one round: a hand bound to the wagers riding on it.
/// Created at betting, consumed at payout, discarded at round end. The
/// side-bet fields are reserved; their settlement is not specified yet.
#[derive(Clone, Debug)]
pub struct PlayerHand {
    pub player_id: Uuid,
    pub hand: Hand,
    pub bet: u32,
    pub insurance_bet: u32,
    pub perfect_pairs_bet: u32,
    pub twenty_one_plus_3_bet: u32,
    pub royal_match_bet: u32,
}

impl Player {
    /// A freshly seated player: not a spectator, not the host, holding the
    /// table's starting credit grant.
    pub fn new(id: Uuid, name: String, starting_credits: u32, is_bot: bool) -> (r: Player)
        ensures
            r.id == id,
            r.name == name,
            r.credits == starting_credits,
            !r.is_spectator,
            r.is_bot == is_bot,
            !r.is_host,
    {
        Player { id, name, credits: starting_credits, is_spectator: false, is_bot, is_host: false }
    }
}

impl PlayerHand {
    /// A round stake: an empty hand with the main bet placed and every side
    /// wager at zero.
    pub fn new(player_id: Uuid, bet: u32) -> (r: PlayerHand)
        ensures
            r.player_id == player_id,
            r.hand@ == Seq::<Card>::empty(),
            r.bet == bet,
            r.insurance_bet == 0,
            r.perfect_pairs_bet == 0,
            r.twenty_one_plus_3_bet == 0,
            r.royal_match_bet == 0,
    {
        PlayerHand {
            player_id,
            hand: Hand::new(),
            bet,
            insurance_bet: 0,
            perfect_pairs_bet: 0,
            twenty_one_plus_3_bet: 0,
            royal_match_bet: 0,
        }
    }
}

} // verus!
