//! The action state machine: level-triggered transitions from current
//! status, input, timer and groundedness.  Repeated identical input each
//! tick is expected and simply re-arms the walk timer.

use vstd::prelude::*;

use crate::character::Config;
use crate::input::{is_down_dir, is_up_dir};
use crate::player::{IsGrounded, Player, Vec2i};
use crate::status::Status;

verus! {

/// Directional transition rules, given the flip-normalized numpad code
/// and, for jump resolution, the raw forward/back key states.  Returns
/// the new `(status, frames_remaining)` pair; combinations outside the
/// implemented rules leave both untouched.
pub open spec fn spec_transition(
    status: Status,
    timer: i64,
    hold_dir: int,
    flipped: bool,
    forward_key: bool,
    back_key: bool,
) -> (Status, i64) {
    match status {
        Status::Idle | Status::WalkingForward | Status::WalkingBack => {
            if hold_dir == 6 {
                (if !flipped { Status::WalkingForward } else { Status::WalkingBack }, 1i64)
            } else if hold_dir == 4 {
                (if !flipped { Status::WalkingBack } else { Status::WalkingForward }, 1i64)
            } else if is_up_dir(hold_dir) {
                (Status::Jumpsquat, 3i64)
            } else if is_down_dir(hold_dir) {
                (Status::Crouch, -1i64)
            } else {
                (status, timer)
            }
        },
        Status::Jumpsquat => {
            if timer == 0 {
                if forward_key {
                    (if flipped { Status::ForwardJump } else { Status::BackJump }, 1i64)
                } else if back_key {
                    (if flipped { Status::BackJump } else { Status::ForwardJump }, 1i64)
                } else {
                    (Status::NeutralJump, 1i64)
                }
            } else {
                (status, timer)
            }
        },
        Status::Crouch => {
            if !is_down_dir(hold_dir) {
                (Status::Idle, timer)
            } else {
                (status, timer)
            }
        },
        _ => (status, timer),
    }
}

/// A combatant after the transition rules: only status and timer change.
pub open spec fn spec_apply_transition(
    p: Player,
    hold_dir: int,
    flipped: bool,
    forward_key: bool,
    back_key: bool,
) -> Player {
    let (s, t) = spec_transition(p.status, p.frames_remaining, hold_dir, flipped, forward_key,
        back_key);
    Player { status: s, frames_remaining: t, ..p }
}

/// A combatant after the movement effects of its (post-transition)
/// status: grounded states feed the walk speed or jump impulse into the
/// velocity; any airborne combatant just accrues gravity.
pub open spec fn spec_movement(p: Player, flipped: bool, cfg: Config) -> Player {
    if p.spec_grounded(cfg) {
        match p.status {
            Status::WalkingForward => Player {
                status: if p.frames_remaining == 0 { Status::Idle } else { Status::WalkingForward },
                vel: Vec2i {
                    x: (if flipped {
                        p.vel.x - p.profile.move_speed
                    } else {
                        p.vel.x + p.profile.move_speed
                    }) as i64,
                    y: p.vel.y,
                },
                ..p
            },
            Status::WalkingBack => Player {
                status: if p.frames_remaining == 0 { Status::Idle } else { Status::WalkingBack },
                vel: Vec2i {
                    x: (if flipped {
                        p.vel.x + p.profile.move_speed
                    } else {
                        p.vel.x - p.profile.move_speed
                    }) as i64,
                    y: p.vel.y,
                },
                ..p
            },
            Status::NeutralJump => Player {
                status: Status::Air,
                vel: Vec2i { x: p.vel.x, y: (p.vel.y - cfg.jump_speed) as i64 },
                ..p
            },
            Status::BackJump => Player {
                status: Status::Air,
                vel: Vec2i {
                    x: (if flipped {
                        p.vel.x + p.profile.move_speed
                    } else {
                        p.vel.x - p.profile.move_speed
                    }) as i64,
                    y: (p.vel.y - cfg.jump_speed) as i64,
                },
                ..p
            },
            Status::ForwardJump => Player {
                status: Status::Air,
                vel: Vec2i {
                    x: (if flipped {
                        p.vel.x - p.profile.move_speed
                    } else {
                        p.vel.x + p.profile.move_speed
                    }) as i64,
                    y: (p.vel.y - cfg.jump_speed) as i64,
                },
                ..p
            },
            Status::Air => Player { status: Status::Idle, frames_remaining: -1i64, ..p },
            _ => p,
        }
    } else {
        Player { vel: Vec2i { x: p.vel.x, y: (p.vel.y + cfg.gravity) as i64 }, ..p }
    }
}

/// Jump arc: releasing a jumpsquat whose timer has reached 0 with
/// neither raw directional key held selects the neutral jump, which in
/// the same tick leaves the ground as `Air` with the vertical velocity
/// decreased by exactly the jump impulse and the horizontal velocity
/// unchanged.
pub proof fn lemma_neutral_jump_arc(p: Player, hold_dir: int, flipped: bool, cfg: Config)
    requires
        p.wf(),
        cfg.wf(),
        p.status is Jumpsquat,
        p.frames_remaining == 0,
        p.spec_grounded(cfg),
    ensures
        ({
            let q = spec_movement(spec_apply_transition(p, hold_dir, flipped, false, false),
                flipped, cfg);
            &&& q.status is Air
            &&& q.vel.y == p.vel.y - cfg.jump_speed
            &&& q.vel.x == p.vel.x
            &&& q.pos == p.pos
        }),
{
}

/// Crouch exit: a crouching combatant whose held direction is no longer
/// a down direction stands back to `Idle` on that same tick, with its
/// timer untouched.
pub proof fn lemma_crouch_exit(
    p: Player,
    hold_dir: int,
    flipped: bool,
    forward_key: bool,
    back_key: bool,
)
    requires
        p.status is Crouch,
        !is_down_dir(hold_dir),
    ensures
        spec_apply_transition(p, hold_dir, flipped, forward_key, back_key).status is Idle,
        spec_apply_transition(p, hold_dir, flipped, forward_key, back_key).frames_remaining
            == p.frames_remaining,
{
}

/// Applies the transition rules in place.
pub fn apply_transition(
    p: &mut Player,
    hold_dir: i64,
    flipped: bool,
    forward_key: bool,
    back_key: bool,
)
    ensures
        *final(p) == spec_apply_transition(*old(p), hold_dir as int, flipped, forward_key,
            back_key),
        final(p).pos == old(p).pos,
        final(p).vel == old(p).vel,
        final(p).profile == old(p).profile,
        final(p).frames_remaining == -1 || final(p).frames_remaining == old(p).frames_remaining
            || final(p).frames_remaining == 1 || final(p).frames_remaining == 3,
{
    if matches!(p.status, Status::Idle | Status::WalkingForward | Status::WalkingBack) {
        if hold_dir == 6 {
            if !flipped {
                p.status = Status::WalkingForward;
            } else {
                p.status = Status::WalkingBack;
            }
            p.frames_remaining = 1;
        } else if hold_dir == 4 {
            if !flipped {
                p.status = Status::WalkingBack;
            } else {
                p.status = Status::WalkingForward;
            }
            p.frames_remaining = 1;
        } else if hold_dir == 7 || hold_dir == 8 || hold_dir == 9 {
            p.status = Status::Jumpsquat;
            p.frames_remaining = 3;
        } else if hold_dir == 1 || hold_dir == 2 || hold_dir == 3 {
            p.status = Status::Crouch;
            p.frames_remaining = -1;
        }
    } else if matches!(p.status, Status::Jumpsquat) && p.frames_remaining == 0 {
        if forward_key {
            if flipped {
                p.status = Status::ForwardJump;
            } else {
                p.status = Status::BackJump;
            }
            p.frames_remaining = 1;
        } else if back_key {
            if flipped {
                p.status = Status::BackJump;
            } else {
                p.status = Status::ForwardJump;
            }
            p.frames_remaining = 1;
        } else {
            p.status = Status::NeutralJump;
            p.frames_remaining = 1;
        }
    } else if matches!(p.status, Status::Crouch) {
        if !(hold_dir == 1 || hold_dir == 2 || hold_dir == 3) {
            p.status = Status::Idle;
        }
    }
}

/// Applies the movement effects in place.
pub fn apply_movement(p: &mut Player, flipped: bool, cfg: &Config)
    requires
        old(p).wf(),
        cfg.wf(),
    ensures
        *final(p) == spec_movement(*old(p), flipped, *cfg),
        final(p).pos == old(p).pos,
        final(p).profile == old(p).profile,
        -2 * crate::character::COORD_LIMIT <= final(p).vel.x <= 2 * crate::character::COORD_LIMIT,
        -2 * crate::character::COORD_LIMIT <= final(p).vel.y <= 2 * crate::character::COORD_LIMIT,
        -crate::character::COORD_LIMIT <= final(p).frames_remaining
            <= crate::character::COORD_LIMIT,
{
    if p.is_grounded(cfg) {
        if matches!(p.status, Status::WalkingForward) {
            if p.frames_remaining == 0 {
                p.status = Status::Idle;
            } else {
                p.status = Status::WalkingForward;
            }
            if flipped {
                p.vel.x = p.vel.x - p.profile.move_speed;
            } else {
                p.vel.x = p.vel.x + p.profile.move_speed;
            }
        } else if matches!(p.status, Status::WalkingBack) {
            if p.frames_remaining == 0 {
                p.status = Status::Idle;
            } else {
                p.status = Status::WalkingBack;
            }
            if flipped {
                p.vel.x = p.vel.x + p.profile.move_speed;
            } else {
                p.vel.x = p.vel.x - p.profile.move_speed;
            }
        } else if matches!(p.status, Status::NeutralJump) {
            p.vel.y = p.vel.y - cfg.jump_speed;
            p.status = Status::Air;
        } else if matches!(p.status, Status::BackJump) {
            p.vel.y = p.vel.y - cfg.jump_speed;
            if flipped {
                p.vel.x = p.vel.x + p.profile.move_speed;
            } else {
                p.vel.x = p.vel.x - p.profile.move_speed;
            }
            p.status = Status::Air;
        } else if matches!(p.status, Status::ForwardJump) {
            p.vel.y = p.vel.y - cfg.jump_speed;
            if flipped {
                p.vel.x = p.vel.x - p.profile.move_speed;
            } else {
                p.vel.x = p.vel.x + p.profile.move_speed;
            }
            p.status = Status::Air;
        } else if matches!(p.status, Status::Air) {
            p.status = Status::Idle;
            p.frames_remaining = -1;
        }
    } else {
        p.vel.y = p.vel.y + cfg.gravity;
    }
}

} // verus!
