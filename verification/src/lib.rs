//! Core of a Texas Hold'em hand: a 52-card deck, a player/table registry,
//! and a forward-only state machine over the dealing phases.

pub mod cards;
pub mod game;
pub mod state;
pub mod table;
