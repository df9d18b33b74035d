//! Position integration, symmetric collision resolution and arena
//! boundary clamping.

use vstd::prelude::*;

use crate::character::{Config, COORD_LIMIT};
use crate::player::{Player, Vec2i};
use crate::status::Status;

verus! {

/// Where a combatant would land this tick if nothing stood in the way.
pub open spec fn spec_tentative(p: Player) -> Vec2i {
    Vec2i { x: (p.pos.x + p.vel.x) as i64, y: (p.pos.y + p.vel.y) as i64 }
}

/// The symmetric-push rule runs exactly when the first combatant is
/// neither airborne nor in jumpsquat and the second is not airborne.
pub open spec fn spec_collision_active(s1: Status, s2: Status) -> bool {
    !(s1 is Air) && !(s1 is Jumpsquat) && !(s2 is Air)
}

/// Horizontal overlap of the left body (left edge `left_x`, width
/// `left_w`) with the right body (left edge `right_x`).
pub open spec fn spec_overlap(left_x: int, right_x: int, left_w: int) -> int {
    left_x + left_w - right_x
}

/// Symmetric, non-elastic separation: if the tentative boxes overlap,
/// each body yields half the overlap, the left one moving left and the
/// right one moving right, leaving the boxes exactly adjacent.  When the
/// overlap is odd the spare unit goes to the right body.
pub open spec fn spec_push_apart(left_x: int, right_x: int, left_w: int) -> (int, int) {
    let overlap = spec_overlap(left_x, right_x, left_w);
    if overlap > 0 {
        (left_x - overlap / 2, right_x + (overlap - overlap / 2))
    } else {
        (left_x, right_x)
    }
}

/// Boundary clamping: feet never below the floor, the box never past
/// either side of the arena.
pub open spec fn spec_clamp(x: int, y: int, w: int, h: int, cfg: Config) -> (int, int) {
    let cy = if y + h > cfg.floor_height {
        cfg.floor_height - h
    } else {
        y
    };
    let x1 = if x < 0 {
        0
    } else {
        x
    };
    let x2 = if x1 + w > cfg.arena_width {
        cfg.arena_width - w
    } else {
        x1
    };
    (x2, cy)
}

/// Overlapping tentative boxes come out exactly adjacent: the
/// post-resolution gap is zero, the two displacements are opposite and
/// add up to the whole overlap, and an even overlap splits into exactly
/// half for each body.
pub proof fn lemma_push_apart_symmetric(left_x: int, right_x: int, left_w: int)
    requires
        spec_overlap(left_x, right_x, left_w) > 0,
    ensures
        ({
            let o = spec_overlap(left_x, right_x, left_w);
            let (lx, rx) = spec_push_apart(left_x, right_x, left_w);
            &&& rx - (lx + left_w) == 0
            &&& left_x - lx >= 0
            &&& rx - right_x >= 0
            &&& (left_x - lx) + (rx - right_x) == o
            &&& o % 2 == 0 ==> left_x - lx == o / 2 && rx - right_x == o / 2
        }),
{
}

/// Clamped positions respect the arena: the left edge is at or past 0,
/// the right edge at or before the arena width, and the feet at or above
/// the floor line.
pub proof fn lemma_clamp_in_bounds(x: int, y: int, w: int, h: int, cfg: Config)
    requires
        cfg.wf(),
        0 < w <= cfg.arena_width,
    ensures
        ({
            let (cx, cy) = spec_clamp(x, y, w, h, cfg);
            &&& 0 <= cx
            &&& cx + w <= cfg.arena_width
            &&& cy + h <= cfg.floor_height
        }),
{
}

/// Resolves one overlap between a left body and a right body, returning
/// their corrected tentative x coordinates.
pub fn push_apart(left_x: i64, right_x: i64, left_w: i64) -> (r: (i64, i64))
    requires
        -8 * COORD_LIMIT <= left_x <= 8 * COORD_LIMIT,
        -8 * COORD_LIMIT <= right_x <= 8 * COORD_LIMIT,
        0 <= left_w <= COORD_LIMIT,
    ensures
        (r.0 as int, r.1 as int) == spec_push_apart(left_x as int, right_x as int, left_w as int),
        -17 * COORD_LIMIT <= r.0 <= 17 * COORD_LIMIT,
        -17 * COORD_LIMIT <= r.1 <= 17 * COORD_LIMIT,
{
    let overlap: i64 = left_x + left_w - right_x;
    if overlap > 0 {
        let half: i64 = overlap / 2;
        (left_x - half, right_x + (overlap - half))
    } else {
        (left_x, right_x)
    }
}

/// Clamps a combatant's corrected tentative position into the arena and
/// stores it.  Only the position changes.
pub fn clamp_into_arena(p: &mut Player, new_x: i64, new_y: i64, cfg: &Config)
    requires
        old(p).profile.wf(),
        old(p).profile.width <= cfg.arena_width,
        cfg.wf(),
        -17 * COORD_LIMIT <= new_x <= 17 * COORD_LIMIT,
        -17 * COORD_LIMIT <= new_y <= 17 * COORD_LIMIT,
    ensures
        (final(p).pos.x as int, final(p).pos.y as int) == spec_clamp(new_x as int, new_y as int,
            old(p).profile.width as int, old(p).profile.height as int, *cfg),
        final(p).vel == old(p).vel,
        final(p).status == old(p).status,
        final(p).profile == old(p).profile,
        final(p).frames_remaining == old(p).frames_remaining,
        0 <= final(p).pos.x,
        final(p).pos.x + final(p).profile.width <= cfg.arena_width,
        final(p).pos.y + final(p).profile.height <= cfg.floor_height,
{
    let mut y: i64 = new_y;
    if y + p.profile.height > cfg.floor_height {
        y = cfg.floor_height - p.profile.height;
    }
    let mut x: i64 = new_x;
    if x < 0 {
        x = 0;
    }
    if x + p.profile.width > cfg.arena_width {
        x = cfg.arena_width - p.profile.width;
    }
    p.pos = Vec2i { x, y };
    proof {
        lemma_clamp_in_bounds(new_x as int, new_y as int, p.profile.width as int,
            p.profile.height as int, *cfg);
    }
}

} // verus!
