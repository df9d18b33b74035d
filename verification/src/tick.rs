//! The frame orchestrator: one fixed 60Hz tick.  Per tick it derives each
//! combatant's facing from relative position, normalizes input, runs the
//! state machine, integrates movement, resolves collision on both
//! tentative positions, clamps to the arena, zeroes grounded horizontal
//! velocity and decrements both timers.

use vstd::prelude::*;

use crate::character::Config;
use crate::input::{hold_dir_from_inputs, spec_hold_dir, DirInputs};
use crate::machine::{apply_movement, apply_transition, spec_apply_transition, spec_movement};
use crate::physics::{
    clamp_into_arena, push_apart, spec_clamp, spec_collision_active, spec_push_apart,
    spec_tentative,
};
use crate::player::{GetFeet, IsGrounded, Player, Vec2i};
use crate::status::Status;

verus! {

/// Facing: a combatant is flipped when its x position exceeds the
/// opponent's.  Unless the two are exactly equal, exactly one of the two
/// combatants is flipped.
pub open spec fn spec_flipped(p: Player, opponent: Player) -> bool {
    p.pos.x > opponent.pos.x
}

/// Unless the two combatants stand at exactly the same x position,
/// exactly one of them is flipped; at equal positions neither is.
pub proof fn lemma_facing_antisymmetric(p: Player, q: Player)
    ensures
        p.pos.x == q.pos.x ==> !spec_flipped(p, q) && !spec_flipped(q, p),
        p.pos.x != q.pos.x ==> (spec_flipped(p, q) <==> !spec_flipped(q, p)),
{
}

/// The state-machine half of a tick for one combatant: transition rules,
/// then movement effects of the resulting status.
pub open spec fn spec_status_phase(p: Player, inp: DirInputs, flipped: bool, cfg: Config) -> Player {
    spec_movement(
        spec_apply_transition(p, spec_hold_dir(inp), flipped, inp.forward, inp.back),
        flipped,
        cfg,
    )
}

/// Both corrected tentative x positions after collision resolution.
/// Left and right are judged by the pre-move relative position (`flip1`);
/// the push runs only when the first combatant is neither airborne nor in
/// jumpsquat and the second is not airborne.
pub open spec fn spec_resolve(a: Player, b: Player, flip1: bool) -> (int, int) {
    let ta = spec_tentative(a);
    let tb = spec_tentative(b);
    if spec_collision_active(a.status, b.status) {
        if flip1 {
            let (lx, rx) = spec_push_apart(tb.x as int, ta.x as int, b.profile.width as int);
            (rx, lx)
        } else {
            spec_push_apart(ta.x as int, tb.x as int, a.profile.width as int)
        }
    } else {
        (ta.x as int, tb.x as int)
    }
}

/// The physics half of a tick for one combatant, once its corrected
/// tentative x is known: clamp into the arena, zero horizontal velocity
/// if grounded, and decrement the timer.
pub open spec fn spec_settle(p: Player, corrected_x: int, cfg: Config) -> Player {
    let ty = spec_tentative(p).y as int;
    let (cx, cy) = spec_clamp(corrected_x, ty, p.profile.width as int, p.profile.height as int,
        cfg);
    let q = Player { pos: Vec2i { x: cx as i64, y: cy as i64 }, ..p };
    let q = if q.spec_grounded(cfg) {
        Player { vel: Vec2i { x: 0i64, y: q.vel.y }, ..q }
    } else {
        q
    };
    Player { frames_remaining: (q.frames_remaining - 1) as i64, ..q }
}

/// One whole simulation tick over both combatants.
pub open spec fn spec_tick(
    p1: Player,
    p2: Player,
    in1: DirInputs,
    in2: DirInputs,
    cfg: Config,
) -> (Player, Player) {
    let flip1 = spec_flipped(p1, p2);
    let flip2 = spec_flipped(p2, p1);
    let a = spec_status_phase(p1, in1, flip1, cfg);
    let b = spec_status_phase(p2, in2, flip2, cfg);
    let (ax, bx) = spec_resolve(a, b, flip1);
    (spec_settle(a, ax, cfg), spec_settle(b, bx, cfg))
}

/// Idempotence of grounded zeroing: whatever the inputs, a combatant
/// that is grounded at the end of a tick ends that tick with exactly
/// zero horizontal velocity, so it starts the next tick without any
/// residual slide.
pub proof fn lemma_grounded_zeroing(
    p1: Player,
    p2: Player,
    in1: DirInputs,
    in2: DirInputs,
    cfg: Config,
)
    ensures
        ({
            let (q1, q2) = spec_tick(p1, p2, in1, in2, cfg);
            &&& q1.spec_grounded(cfg) ==> q1.vel.x == 0
            &&& q2.spec_grounded(cfg) ==> q2.vel.x == 0
        }),
{
}

/// State machine totality and determinism: a tick is a pure function of
/// the two combatants' states, the two inputs and the configuration, so
/// equal states under equal inputs always reproduce the same outcome.
pub proof fn lemma_tick_deterministic(
    p1: Player,
    p2: Player,
    q1: Player,
    q2: Player,
    in1: DirInputs,
    in2: DirInputs,
    cfg: Config,
)
    requires
        p1 == q1,
        p2 == q2,
    ensures
        spec_tick(p1, p2, in1, in2, cfg) == spec_tick(q1, q2, in1, in2, cfg),
{
}

/// Advances both combatants by one tick.
///
/// The postconditions pin the whole outcome to `spec_tick` and state the
/// standing guarantees: after clamping both bounding boxes lie inside
/// `[0, arena_width]` with feet at or above the floor line, and a
/// combatant that ends the tick grounded ends it with zero horizontal
/// velocity.
pub fn tick(p1: &mut Player, p2: &mut Player, in1: DirInputs, in2: DirInputs, cfg: &Config)
    requires
        old(p1).wf(),
        old(p2).wf(),
        cfg.wf(),
        old(p1).profile.width <= cfg.arena_width,
        old(p2).profile.width <= cfg.arena_width,
    ensures
        *final(p1) == spec_tick(*old(p1), *old(p2), in1, in2, *cfg).0,
        *final(p2) == spec_tick(*old(p1), *old(p2), in1, in2, *cfg).1,
        0 <= final(p1).pos.x,
        final(p1).pos.x + final(p1).profile.width <= cfg.arena_width,
        final(p1).spec_feet() <= cfg.floor_height,
        0 <= final(p2).pos.x,
        final(p2).pos.x + final(p2).profile.width <= cfg.arena_width,
        final(p2).spec_feet() <= cfg.floor_height,
        final(p1).spec_grounded(*cfg) ==> final(p1).vel.x == 0,
        final(p2).spec_grounded(*cfg) ==> final(p2).vel.x == 0,
{
    let ghost g1 = *p1;
    let ghost g2 = *p2;
    let flip1 = p1.pos.x > p2.pos.x;
    let flip2 = p2.pos.x > p1.pos.x;

    let h1 = hold_dir_from_inputs(&in1);
    let h2 = hold_dir_from_inputs(&in2);
    apply_transition(p1, h1, flip1, in1.forward, in1.back);
    apply_transition(p2, h2, flip2, in2.forward, in2.back);
    apply_movement(p1, flip1, cfg);
    apply_movement(p2, flip2, cfg);
    proof {
        assert(*p1 == spec_status_phase(g1, in1, spec_flipped(g1, g2), *cfg));
        assert(*p2 == spec_status_phase(g2, in2, spec_flipped(g2, g1), *cfg));
    }

    let t1x = p1.pos.x + p1.vel.x;
    let t1y = p1.pos.y + p1.vel.y;
    let t2x = p2.pos.x + p2.vel.x;
    let t2y = p2.pos.y + p2.vel.y;

    let n1x: i64;
    let n2x: i64;
    if !(matches!(p1.status, Status::Air | Status::Jumpsquat)) && !(matches!(p2.status,
        Status::Air)) {
        if flip1 {
            let (lx, rx) = push_apart(t2x, t1x, p2.profile.width);
            n1x = rx;
            n2x = lx;
        } else {
            let (lx, rx) = push_apart(t1x, t2x, p1.profile.width);
            n1x = lx;
            n2x = rx;
        }
    } else {
        n1x = t1x;
        n2x = t2x;
    }
    proof {
        let (ax, bx) = spec_resolve(*p1, *p2, spec_flipped(g1, g2));
        assert(n1x as int == ax);
        assert(n2x as int == bx);
    }

    clamp_into_arena(p1, n1x, t1y, cfg);
    clamp_into_arena(p2, n2x, t2y, cfg);

    if p1.is_grounded(cfg) {
        p1.vel.x = 0;
    }
    if p2.is_grounded(cfg) {
        p2.vel.x = 0;
    }

    p1.frames_remaining = p1.frames_remaining - 1;
    p2.frames_remaining = p2.frames_remaining - 1;
}

} // verus!
