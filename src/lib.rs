//! The bidding phase of contract bridge: cards, hands, a deck, and the auction
//! engine that parses calls, keeps the sequence of calls, and resolves the
//! final contract.

pub mod auction;
pub mod card;
pub mod deck;
pub mod error;
pub mod hand;
pub mod model;
pub mod text;
