use vstd::prelude::*;

verus! {

/// The six-state round cycle an orchestrator sequences a table through. The
/// cycle is closed: the phase after `RoundEnd` is `Betting` again, so there
/// is no terminal state.
#[derive(Clone, Debug, PartialEq, Eq, Hash, Structural)]
pub enum Phase {
    Betting,
    Dealing,
    PlayerTurns,
    DealerTurn,
    Payout,
    RoundEnd,
}

impl Phase {
    /// The single deterministic successor of each phase in the round cycle.
    pub open spec fn next_spec(self) -> Phase {
        match self {
            Phase::Betting => Phase::Dealing,
            Phase::Dealing => Phase::PlayerTurns,
            Phase::PlayerTurns => Phase::DealerTurn,
            Phase::DealerTurn => Phase::Payout,
            Phase::Payout => Phase::RoundEnd,
            Phase::RoundEnd => Phase::Betting,
        }
    }

    /// Advances the round cycle by one step.
    pub fn next(&self) -> (r: Phase)
        ensures
            r == self.next_spec(),
    {
        match self {
            Phase::Betting => Phase::Dealing,
            Phase::Dealing => Phase::PlayerTurns,
            Phase::PlayerTurns => Phase::DealerTurn,
            Phase::DealerTurn => Phase::Payout,
            Phase::Payout => Phase::RoundEnd,
            Phase::RoundEnd => Phase::Betting,
        }
    }
}

impl Default for Phase {
    /// A table starts a round at `Betting`.
    fn default() -> (r: Self)
        ensures
            r == Phase::Betting,
    {
        Phase::Betting
    }
}

} // verus!
