//! A deterministic reducer for a property-trading board game: one action at a
//! time is validated against the state, applied, and appended to an event log.

pub mod auction;
pub mod error;
pub mod game;
pub mod laws;
pub mod model;
pub mod types;

pub use error::{ErrorKind, StateError};
pub use game::GameState;
pub use types::{
    Action, Bid, Card, CardEffect, ChanceCard, CommunityChestCard, Money, Player, PlayerId,
    Property, PropertyId, RollResult, Square, Transaction, TransactionType,
};
