//! Classification, ranking and formatting of dice rolls, the challenge that a
//! roll must beat, and the bookkeeping of a round.

pub mod challenge;
pub mod combination;
pub mod faces;
pub mod format;
pub mod game;
pub mod player;
