use vstd::prelude::*;

use uuid::Uuid;

verus! {

/// The closed set of intents a player can submit for one round. Each value
/// is consumed once by the orchestrator, which validates it against the
/// current phase and the table rules before any state changes.
#[derive(Clone, Debug, PartialEq, Eq, Structural)]
pub enum Action {
    Leave,
    Spectate,
    Bet { amount: u32 },
    BetInsurance { amount: u32 },
    BetPerfectPairs { amount: u32 },
    BetTwentyOnePlus3 { amount: u32 },
    BetRoyalMatch { amount: u32 },
    Hit,
    Stand,
    Double,
    Split,
    Surrender,
}

/// An action tagged with the identity of the player who submitted it.
#[derive(Clone, Debug)]
pub struct PlayerAction {
    pub player_id: Uuid,
    pub action: Action,
}

impl PlayerAction {
    /// Tags an action with its submitting player.
    pub fn new(player_id: Uuid, action: Action) -> (r: PlayerAction)
        ensures
            r.player_id == player_id,
            r.action == action,
    {
        PlayerAction { player_id, action }
    }
}

} // verus!
