pub mod action;
pub mod card;
pub mod error;
pub mod hand;
pub mod payout;
pub mod phase;
pub mod player;
pub mod rules;
pub mod shoe;
