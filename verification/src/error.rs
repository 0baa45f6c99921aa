use vstd::prelude::*;

verus! {

/// A table was configured with parameters that can never work. Raised only at
/// construction time; the caller must correct the parameters and reconstruct.
#[derive(Debug, PartialEq, Eq)]
pub enum ConfigError {
    InvalidDecks(u8),
    InvalidCutPosition(usize, usize),
    InvalidBetLimits { min: u32, max: u32 },
    InvalidPort(u16),
    Other(String),
}

/// A condition raised while a round is running. `ShoeNeedsReshuffling` is
/// recoverable: the caller shuffles and retries the deal. The bet rejections
/// refuse a single player action without mutating any state.
#[derive(Debug, PartialEq, Eq)]
pub enum GameError {
    ShoeNeedsReshuffling,
    BetTooLow { bet: u32, min: u32 },
    BetTooHigh { bet: u32, max: u32 },
    InsufficientCredits { bet: u32, credits: u32 },
    GameFull,
}

pub type ConfigResult<T> = Result<T, ConfigError>;

pub type GameResult<T> = Result<T, GameError>;

} // verus!
