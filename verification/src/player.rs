//! The mutable per-combatant record, its well-formedness bounds, and the
//! derived measurements (feet height, groundedness) that the physics
//! phase reads.

use vstd::prelude::*;

use crate::character::{Character, CharacterList, Config, COORD_LIMIT, profile_of};
use crate::status::Status;

verus! {

/// A 2D vector of half-pixel world units, used for position (top-left
/// corner of the bounding box) and velocity (units per tick).
#[derive(Clone, Copy, Debug, PartialEq, Eq, Structural)]
pub struct Vec2i {
    pub x: i64,
    pub y: i64,
}

/// One combatant: its immutable profile plus the state that the state
/// machine and physics resolver mutate each tick.  `frames_remaining` is
/// the countdown of ticks left in the current status; -1 means no timer.
#[derive(Clone, Copy, Debug)]
pub struct Player {
    pub profile: Character,
    pub pos: Vec2i,
    pub vel: Vec2i,
    pub status: Status,
    pub frames_remaining: i64,
}

/// Bottom edge of a combatant's bounding box.
pub trait GetFeet {
    /// Feet height as a mathematical integer.
    spec fn spec_feet(&self) -> int;

    /// The feet height fits in an `i64`.
    spec fn feet_fits(&self) -> bool;

    fn get_feet(&self) -> (r: i64)
        requires
            self.feet_fits(),
        ensures
            r == self.spec_feet(),
    ;
}

/// Whether a combatant's feet rest at or below the floor line.
pub trait IsGrounded: GetFeet {
    /// Groundedness under the given configuration.
    spec fn spec_grounded(&self, cfg: Config) -> bool;

    fn is_grounded(&self, cfg: &Config) -> (r: bool)
        requires
            self.feet_fits(),
        ensures
            r == self.spec_grounded(*cfg),
    ;
}

impl GetFeet for Player {
    open spec fn spec_feet(&self) -> int {
        self.pos.y + self.profile.height
    }

    open spec fn feet_fits(&self) -> bool {
        i64::MIN <= self.pos.y + self.profile.height <= i64::MAX
    }

    fn get_feet(&self) -> (r: i64) {
        self.pos.y + self.profile.height
    }
}

impl IsGrounded for Player {
    open spec fn spec_grounded(&self, cfg: Config) -> bool {
        self.spec_feet() >= cfg.floor_height
    }

    fn is_grounded(&self, cfg: &Config) -> (r: bool) {
        self.get_feet() >= cfg.floor_height
    }
}

impl Player {
    /// The profile is well formed and every coordinate, speed and timer
    /// is within `COORD_LIMIT`, so one tick's arithmetic cannot overflow.
    pub open spec fn wf(self) -> bool {
        &&& self.profile.wf()
        &&& -COORD_LIMIT <= self.pos.x <= COORD_LIMIT
        &&& -COORD_LIMIT <= self.pos.y <= COORD_LIMIT
        &&& -COORD_LIMIT <= self.vel.x <= COORD_LIMIT
        &&& -COORD_LIMIT <= self.vel.y <= COORD_LIMIT
        &&& -COORD_LIMIT <= self.frames_remaining <= COORD_LIMIT
    }

    /// Runtime check of `wf`, for callers outside verified code.
    pub fn is_well_formed(&self) -> (r: bool)
        ensures
            r == self.wf(),
    {
        0 < self.profile.width && self.profile.width <= COORD_LIMIT
            && 0 < self.profile.height && self.profile.height <= COORD_LIMIT
            && 0 <= self.profile.move_speed && self.profile.move_speed <= COORD_LIMIT
            && -COORD_LIMIT <= self.pos.x && self.pos.x <= COORD_LIMIT
            && -COORD_LIMIT <= self.pos.y && self.pos.y <= COORD_LIMIT
            && -COORD_LIMIT <= self.vel.x && self.vel.x <= COORD_LIMIT
            && -COORD_LIMIT <= self.vel.y && self.vel.y <= COORD_LIMIT
            && -COORD_LIMIT <= self.frames_remaining && self.frames_remaining <= COORD_LIMIT
    }

    /// A freshly spawned combatant of the given archetype: idle, at rest,
    /// no timer, standing at the given position.
    pub fn spawn(archetype: CharacterList, x: i64, y: i64) -> (p: Player)
        requires
            -COORD_LIMIT <= x <= COORD_LIMIT,
            -COORD_LIMIT <= y <= COORD_LIMIT,
        ensures
            p.wf(),
            p.pos == (Vec2i { x, y }),
            p.vel == (Vec2i { x: 0, y: 0 }),
            p.status is Idle,
            p.frames_remaining == -1,
            archetype is MothGirl ==> p.profile.width == 200 && p.profile.height == 236
                && p.profile.move_speed == 14,
            archetype is MushroomGirl ==> p.profile.width == 220 && p.profile.height == 320
                && p.profile.move_speed == 11,
    {
        Player {
            profile: profile_of(archetype),
            pos: Vec2i { x, y },
            vel: Vec2i { x: 0, y: 0 },
            status: Status::Idle,
            frames_remaining: -1,
        }
    }
}

/// Match-start pair: each archetype standing on the floor, centred on its
/// own quarter of the arena, facing the other.
pub fn spawn_players(left: CharacterList, right: CharacterList, cfg: &Config) -> (r: (
    Player,
    Player,
))
    requires
        cfg.wf(),
    ensures
        r.0.wf(),
        r.1.wf(),
        r.0.pos.x == cfg.arena_width / 4 - r.0.profile.width / 2,
        r.1.pos.x == cfg.arena_width / 4 * 3 - r.1.profile.width / 2,
        r.0.pos.y == cfg.floor_height - r.0.profile.height,
        r.1.pos.y == cfg.floor_height - r.1.profile.height,
        r.0.vel == (Vec2i { x: 0, y: 0 }),
        r.1.vel == (Vec2i { x: 0, y: 0 }),
        r.0.status is Idle && r.1.status is Idle,
        r.0.frames_remaining == -1 && r.1.frames_remaining == -1,
        left is MothGirl ==> r.0.profile.width == 200 && r.0.profile.height == 236,
        left is MushroomGirl ==> r.0.profile.width == 220 && r.0.profile.height == 320,
        right is MothGirl ==> r.1.profile.width == 200 && r.1.profile.height == 236,
        right is MushroomGirl ==> r.1.profile.width == 220 && r.1.profile.height == 320,
{
    let pl = profile_of(left);
    let pr = profile_of(right);
    let quarter = cfg.arena_width / 4;
    let p0 = Player {
        profile: pl,
        pos: Vec2i { x: quarter - pl.width / 2, y: cfg.floor_height - pl.height },
        vel: Vec2i { x: 0, y: 0 },
        status: Status::Idle,
        frames_remaining: -1,
    };
    let p1 = Player {
        profile: pr,
        pos: Vec2i { x: quarter * 3 - pr.width / 2, y: cfg.floor_height - pr.height },
        vel: Vec2i { x: 0, y: 0 },
        status: Status::Idle,
        frames_remaining: -1,
    };
    (p0, p1)
}

} // verus!
