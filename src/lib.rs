//! A side-scrolling arcade game: a player falls under gravity, flaps upward,
//! and flies through the gaps of a stream of obstacles.

pub mod physics;
pub mod obstacle;
pub mod game;
pub mod tiles;
