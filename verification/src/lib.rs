//! Verified rule engine for a Monopoly-style property-trading board game
//! played over a shared ledger.
//!
//! The engine owns the turn/phase state machine, dice and movement
//! resolution, the property and building economy, rent computation, the
//! two-deck card resolver, auctions, trades, the jail ("Rug Pull Zone")
//! rules, and bankruptcy.  It never performs I/O: currency moves are
//! reported to the caller as ledger requests, randomness and persistence
//! are supplied by the host, and every operation validates its
//! preconditions before mutating any state.

pub mod board;
pub mod errors;
pub mod player;
pub mod property;
pub mod game;
pub mod trade_offer;
pub mod shuffle;
pub mod lifecycle;
pub mod dice;
pub mod landing;
pub mod rent;
pub mod buying;
pub mod auction;
pub mod building;
pub mod mortgage;
pub mod cards;
pub mod rugpull;
pub mod trade;
pub mod bankruptcy;
