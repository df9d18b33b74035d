//! Per-frame simulation core of a two-player fighting game.
//!
//! Each 60Hz tick advances both combatants' discrete action states,
//! integrates velocity into position, resolves body-to-body overlap
//! symmetrically, and clamps to the arena bounds.  All world lengths are
//! measured in half-pixels so that every speed, including the slower
//! archetype's, is a whole number.

pub mod character;
pub mod input;
pub mod machine;
pub mod physics;
pub mod player;
pub mod status;
pub mod tick;
