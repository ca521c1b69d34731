//! The interface of everything living in the game world.
//!
//! Entities are the consumers of decoded spawn packets: each carries a health
//! meter bounded by a maximum. The game-logic layer outside this crate
//! implements the trait for its concrete creatures.

use vstd::prelude::*;

verus! {

/// Anything with a health meter that can be damaged and healed.
pub trait Entity {
    /// The entity's current health.
    fn health(&self) -> u16;

    /// The entity's maximum health. It may vary between entities of the same
    /// kind, so it is a method rather than a constant.
    fn max_health(&self) -> u16;

    /// Applies `raw_damage` and returns the damage that was actually dealt;
    /// when the entity dies of less than the raw amount, the theoretical
    /// amount is still returned.
    fn damage(&mut self, raw_damage: u16) -> u16;

    /// Applies `raw_healing` and returns the healing that was actually done;
    /// when the healing tops off the meter, the theoretical amount is still
    /// returned.
    fn heal(&mut self, raw_healing: u16) -> u16;
}

} // verus!
