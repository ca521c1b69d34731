//! General-purpose helpers that are useful throughout the project but are not
//! themselves part of the game.

pub mod vector;

pub use vector::Vector;
