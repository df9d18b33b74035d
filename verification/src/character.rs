//! Static per-archetype data and the global simulation configuration.
//!
//! All lengths are in half-pixels: twice the on-screen pixel counts, so
//! that every per-tick speed is an integer.  The renderer divides by two.

use vstd::prelude::*;

verus! {

/// Magnitude bound on every coordinate, speed and timer the simulation
/// handles.  Keeping inputs within it makes every per-tick sum fit in an
/// `i64` with room to spare.
pub const COORD_LIMIT: i64 = 0x1000_0000_0000;

/// Arena width in half-pixels (1730 pixels).
pub const SCREEN_WIDTH: i64 = 3460;

/// Arena height in half-pixels (1080 pixels).
pub const SCREEN_HEIGHT: i64 = 2160;

/// Ticks per second of the fixed-step loop.
pub const FRAME_RATE: i64 = 60;

/// Vertical speed impulse applied when a jump leaves the ground.
pub const JUMP_SPEED: i64 = 70;

/// Downward acceleration added to an airborne combatant every tick.
pub const GRAVITY: i64 = 4;

/// Height of the floor line: feet at or below it count as grounded.
pub const FLOOR_HEIGHT: i64 = SCREEN_HEIGHT - 40;

/// The closed set of playable archetypes.
#[derive(Clone, Copy, Debug, PartialEq, Eq, Structural)]
pub enum CharacterList {
    MothGirl,
    MushroomGirl,
}

/// Immutable per-archetype profile: bounding-box dimensions and walk
/// speed, in half-pixels.
#[derive(Clone, Copy, Debug)]
pub struct Character {
    pub name: &'static str,
    pub width: i64,
    pub height: i64,
    pub move_speed: i64,
}

impl Character {
    /// Dimensions are positive and everything is within `COORD_LIMIT`.
    pub open spec fn wf(self) -> bool {
        &&& 0 < self.width <= COORD_LIMIT
        &&& 0 < self.height <= COORD_LIMIT
        &&& 0 <= self.move_speed <= COORD_LIMIT
    }
}

/// Arena geometry and physical constants, fixed for the life of a match.
#[derive(Clone, Copy, Debug, PartialEq, Eq, Structural)]
pub struct Config {
    pub arena_width: i64,
    pub floor_height: i64,
    pub gravity: i64,
    pub jump_speed: i64,
}

impl Config {
    /// The arena is non-empty and all constants are within `COORD_LIMIT`.
    pub open spec fn wf(self) -> bool {
        &&& 0 < self.arena_width <= COORD_LIMIT
        &&& 0 <= self.floor_height <= COORD_LIMIT
        &&& 0 <= self.gravity <= COORD_LIMIT
        &&& 0 <= self.jump_speed <= COORD_LIMIT
    }

    /// Runtime check of `wf`, for callers outside verified code.
    pub fn is_well_formed(&self) -> (r: bool)
        ensures
            r == self.wf(),
    {
        0 < self.arena_width && self.arena_width <= COORD_LIMIT
            && 0 <= self.floor_height && self.floor_height <= COORD_LIMIT
            && 0 <= self.gravity && self.gravity <= COORD_LIMIT
            && 0 <= self.jump_speed && self.jump_speed <= COORD_LIMIT
    }
}

/// The stock configuration: the 1730x1080 arena with its floor 20 pixels
/// above the bottom edge, and the standard gravity and jump impulse.
pub fn default_config() -> (c: Config)
    ensures
        c == (Config {
            arena_width: SCREEN_WIDTH,
            floor_height: FLOOR_HEIGHT,
            gravity: GRAVITY,
            jump_speed: JUMP_SPEED,
        }),
        c.wf(),
{
    Config {
        arena_width: SCREEN_WIDTH,
        floor_height: FLOOR_HEIGHT,
        gravity: GRAVITY,
        jump_speed: JUMP_SPEED,
    }
}

/// The static profile of each archetype.
pub fn profile_of(c: CharacterList) -> (p: Character)
    ensures
        p.wf(),
        c is MothGirl ==> p.width == 200 && p.height == 236 && p.move_speed == 14,
        c is MushroomGirl ==> p.width == 220 && p.height == 320 && p.move_speed == 11,
        c is MothGirl ==> p.name@ == "moth_girl"@,
        c is MushroomGirl ==> p.name@ == "mushroom_girl"@,
{
    match c {
        CharacterList::MothGirl => Character {
            name: "moth_girl",
            width: 200,
            height: 236,
            move_speed: 14,
        },
        CharacterList::MushroomGirl => Character {
            name: "mushroom_girl",
            width: 220,
            height: 320,
            move_speed: 11,
        },
    }
}

} // verus!
