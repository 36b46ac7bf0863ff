//! Game engine for a two-player, room-based card game.
//!
//! The engine is split into four parts: the card and deck model
//! ([`cards`]), the hand evaluator ([`combination`]), the message
//! types exchanged with the two participants ([`messages`]), and the
//! betting-round state machine ([`game`]).  All state mutation is
//! pure with respect to I/O: the state machine returns the messages
//! and timer requests it wants delivered, and the caller performs the
//! actual delivery.

pub mod cards;
pub mod combination;
pub mod game;
pub mod messages;
