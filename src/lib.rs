//! A two-player card-game engine: cards, boards with their zones, and the
//! match that drives setup and turn phases.

pub mod board;
pub mod card;
pub mod card_data;
pub mod cursor;
pub mod game;
