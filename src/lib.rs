//! A two-player tug of war for a touch screen: each player holds a zone,
//! the touches decide which side's bar fills, a full bar wins the round,
//! a blinking celebration follows, and the game waits for the next round.

pub mod units;
pub mod touch;
pub mod game;
pub mod render;
pub mod app;
pub mod outcome;
