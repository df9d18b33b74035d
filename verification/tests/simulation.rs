//! Tick-level scenarios: walking, crouching, jumping, gravity, landing,
//! collision resolution and boundary clamping.

use rustfight::character::{default_config, CharacterList, Config};
use rustfight::input::DirInputs;
use rustfight::player::{IsGrounded, Player};
use rustfight::status::Status;
use rustfight::tick::tick;

const STAND_Y: i64 = 2120 - 236;

fn neutral() -> DirInputs {
    DirInputs { forward: false, back: false, up: false, down: false }
}

fn hold_forward_numpad() -> DirInputs {
    // back key held: axis +1, numpad 6
    DirInputs { forward: false, back: true, up: false, down: false }
}

fn hold_back_numpad() -> DirInputs {
    // forward key held: axis -1, numpad 4
    DirInputs { forward: true, back: false, up: false, down: false }
}

fn hold_up() -> DirInputs {
    DirInputs { forward: false, back: false, up: true, down: false }
}

fn hold_down() -> DirInputs {
    DirInputs { forward: false, back: false, up: false, down: true }
}

fn standing_pair(x1: i64, x2: i64) -> (Player, Player, Config) {
    let cfg = default_config();
    let p1 = Player::spawn(CharacterList::MothGirl, x1, STAND_Y);
    let p2 = Player::spawn(CharacterList::MothGirl, x2, STAND_Y);
    (p1, p2, cfg)
}

#[test]
fn walk_scenario() {
    let (mut p1, mut p2, cfg) = standing_pair(500, 3000);

    tick(&mut p1, &mut p2, hold_forward_numpad(), neutral(), &cfg);
    assert_eq!(p1.status, Status::WalkingForward);
    assert_eq!(p1.frames_remaining, 0); // armed to 1, then the end-of-tick decrement
    assert_eq!(p1.pos.x, 514); // moved by move_speed
    assert_eq!(p1.vel.x, 0); // grounded zeroing
    assert_eq!(p2.status, Status::Idle);
    assert_eq!(p2.pos.x, 3000);

    // next tick without input: the expired timer reverts the walk to Idle,
    // but the walk speed still applies within that tick
    tick(&mut p1, &mut p2, neutral(), neutral(), &cfg);
    assert_eq!(p1.status, Status::Idle);
    assert_eq!(p1.pos.x, 528);
    assert_eq!(p1.frames_remaining, -1);
}

#[test]
fn walk_timer_rearms_while_held() {
    let (mut p1, mut p2, cfg) = standing_pair(500, 3000);
    tick(&mut p1, &mut p2, hold_forward_numpad(), neutral(), &cfg);
    tick(&mut p1, &mut p2, hold_forward_numpad(), neutral(), &cfg);
    assert_eq!(p1.status, Status::WalkingForward);
    assert_eq!(p1.frames_remaining, 0);
    assert_eq!(p1.pos.x, 528);
}

#[test]
fn walk_directions_flip_with_facing() {
    // p1 stands to the right of p2, so p1 is flipped
    let (mut p1, mut p2, cfg) = standing_pair(3000, 500);
    tick(&mut p1, &mut p2, hold_forward_numpad(), neutral(), &cfg);
    assert_eq!(p1.status, Status::WalkingBack);
    assert_eq!(p1.pos.x, 3000 + 14); // back is away from the opponent

    let (mut q1, mut q2, cfg) = standing_pair(3000, 500);
    tick(&mut q1, &mut q2, hold_back_numpad(), neutral(), &cfg);
    assert_eq!(q1.status, Status::WalkingForward);
    assert_eq!(q1.pos.x, 3000 - 14);
    assert_eq!(q2.status, Status::Idle);
}

#[test]
fn crouch_scenario() {
    let (mut p1, mut p2, cfg) = standing_pair(500, 3000);
    tick(&mut p1, &mut p2, hold_down(), neutral(), &cfg);
    assert_eq!(p1.status, Status::Crouch);
    assert_eq!(p1.frames_remaining, -2); // sentinel -1, then the end-of-tick decrement
    assert_eq!(p1.pos.x, 500);

    // releasing the down direction stands back up the same tick
    tick(&mut p1, &mut p2, neutral(), neutral(), &cfg);
    assert_eq!(p1.status, Status::Idle);
}

#[test]
fn crouch_persists_while_held() {
    let (mut p1, mut p2, cfg) = standing_pair(500, 3000);
    tick(&mut p1, &mut p2, hold_down(), neutral(), &cfg);
    tick(&mut p1, &mut p2, hold_down(), neutral(), &cfg);
    assert_eq!(p1.status, Status::Crouch);
}

#[test]
fn jumpsquat_entry() {
    let (mut p1, mut p2, cfg) = standing_pair(500, 3000);
    tick(&mut p1, &mut p2, hold_up(), neutral(), &cfg);
    assert_eq!(p1.status, Status::Jumpsquat);
    assert_eq!(p1.frames_remaining, 2); // armed to 3, then the end-of-tick decrement
    assert_eq!(p1.pos.x, 500);
    assert_eq!(p1.vel.y, 0);
}

#[test]
fn neutral_jump_arc() {
    let (mut p1, mut p2, cfg) = standing_pair(500, 3000);
    p1.status = Status::Jumpsquat;
    p1.frames_remaining = 0;
    tick(&mut p1, &mut p2, neutral(), neutral(), &cfg);
    assert_eq!(p1.status, Status::Air);
    assert_eq!(p1.vel.y, -70); // decreased by exactly the jump impulse
    assert_eq!(p1.vel.x, 0); // unchanged
    assert_eq!(p1.pos.y, STAND_Y - 70);
    assert_eq!(p1.frames_remaining, 0);
}

#[test]
fn jump_direction_from_raw_keys() {
    // not flipped: the raw forward key jumps away from the opponent
    let (mut p1, mut p2, cfg) = standing_pair(500, 3000);
    p1.status = Status::Jumpsquat;
    p1.frames_remaining = 0;
    tick(&mut p1, &mut p2, hold_back_numpad(), neutral(), &cfg);
    assert_eq!(p1.status, Status::Air);
    assert_eq!(p1.pos.x, 500 - 14);
    assert_eq!(p1.vel.y, -70);

    // flipped: the same raw key jumps toward the opponent
    let (mut q1, mut q2, cfg) = standing_pair(3000, 500);
    q1.status = Status::Jumpsquat;
    q1.frames_remaining = 0;
    tick(&mut q1, &mut q2, hold_back_numpad(), neutral(), &cfg);
    assert_eq!(q1.status, Status::Air);
    assert_eq!(q1.pos.x, 3000 - 14);
    assert_eq!(q2.status, Status::Idle);
}

#[test]
fn back_key_jump_directions() {
    let (mut p1, mut p2, cfg) = standing_pair(500, 3000);
    p1.status = Status::Jumpsquat;
    p1.frames_remaining = 0;
    tick(&mut p1, &mut p2, hold_forward_numpad(), neutral(), &cfg);
    assert_eq!(p1.status, Status::Air);
    assert_eq!(p1.pos.x, 500 + 14); // ForwardJump when not flipped
    assert_eq!(p2.pos.x, 3000);
}

#[test]
fn jumpsquat_waits_out_its_timer() {
    let (mut p1, mut p2, cfg) = standing_pair(500, 3000);
    tick(&mut p1, &mut p2, hold_up(), neutral(), &cfg); // timer 3 -> 2
    tick(&mut p1, &mut p2, neutral(), neutral(), &cfg); // 2 -> 1
    assert_eq!(p1.status, Status::Jumpsquat);
    tick(&mut p1, &mut p2, neutral(), neutral(), &cfg); // 1 -> 0
    assert_eq!(p1.status, Status::Jumpsquat);
    tick(&mut p1, &mut p2, neutral(), neutral(), &cfg); // releases
    assert_eq!(p1.status, Status::Air);
    assert_eq!(p1.vel.y, -70);
}

#[test]
fn gravity_accrues_while_airborne() {
    let cfg = default_config();
    let mut p1 = Player::spawn(CharacterList::MothGirl, 500, 1000);
    p1.status = Status::Air;
    let mut p2 = Player::spawn(CharacterList::MothGirl, 3000, STAND_Y);
    tick(&mut p1, &mut p2, neutral(), neutral(), &cfg);
    assert_eq!(p1.vel.y, 4);
    assert_eq!(p1.pos.y, 1004);
    tick(&mut p1, &mut p2, neutral(), neutral(), &cfg);
    assert_eq!(p1.vel.y, 8);
    assert_eq!(p1.pos.y, 1012);
    assert_eq!(p1.status, Status::Air);
}

#[test]
fn landing_scenario() {
    let cfg = default_config();
    let mut p1 = Player::spawn(CharacterList::MothGirl, 500, STAND_Y - 10);
    p1.status = Status::Air;
    p1.vel.y = 50;
    p1.vel.x = 7;
    let mut p2 = Player::spawn(CharacterList::MothGirl, 3000, STAND_Y);

    // the fall overshoots the floor; feet are snapped exactly onto it
    tick(&mut p1, &mut p2, neutral(), neutral(), &cfg);
    assert_eq!(p1.pos.y, STAND_Y);
    assert!(p1.is_grounded(&cfg));
    assert_eq!(p1.vel.x, 0); // grounded zeroing
    assert_eq!(p1.status, Status::Air); // the landing is noticed next tick

    // now grounded: Air reverts to Idle with the timer cleared
    tick(&mut p1, &mut p2, neutral(), neutral(), &cfg);
    assert_eq!(p1.status, Status::Idle);
    assert_eq!(p1.frames_remaining, -2); // cleared to -1, then the decrement
}

#[test]
fn collision_even_overlap_splits_evenly() {
    let (mut p1, mut p2, cfg) = standing_pair(500, 600);
    // tentative boxes overlap by 100: each yields exactly half
    tick(&mut p1, &mut p2, neutral(), neutral(), &cfg);
    assert_eq!(p1.pos.x, 450);
    assert_eq!(p2.pos.x, 650);
    assert_eq!(p1.pos.x + 200, p2.pos.x); // gap exactly zero
}

#[test]
fn collision_odd_overlap_leaves_no_gap() {
    let (mut p1, mut p2, cfg) = standing_pair(500, 599);
    // overlap 101: the spare unit goes to the right body
    tick(&mut p1, &mut p2, neutral(), neutral(), &cfg);
    assert_eq!(p1.pos.x, 450);
    assert_eq!(p2.pos.x, 650);
    assert_eq!(p1.pos.x + 200, p2.pos.x);
}

#[test]
fn collision_respects_facing() {
    // p1 on the right: p2 is the left body of the pair
    let (mut p1, mut p2, cfg) = standing_pair(600, 500);
    tick(&mut p1, &mut p2, neutral(), neutral(), &cfg);
    assert_eq!(p2.pos.x, 450);
    assert_eq!(p1.pos.x, 650);
}

#[test]
fn collision_skipped_while_airborne() {
    let cfg = default_config();
    let mut p1 = Player::spawn(CharacterList::MothGirl, 500, 1000);
    p1.status = Status::Air;
    let mut p2 = Player::spawn(CharacterList::MothGirl, 560, STAND_Y);
    tick(&mut p1, &mut p2, neutral(), neutral(), &cfg);
    assert_eq!(p1.pos.x, 500);
    assert_eq!(p2.pos.x, 560);
}

#[test]
fn clamped_to_left_wall() {
    let (mut p1, mut p2, cfg) = standing_pair(-50, 3000);
    tick(&mut p1, &mut p2, neutral(), neutral(), &cfg);
    assert_eq!(p1.pos.x, 0);
}

#[test]
fn clamped_to_right_wall() {
    let (mut p1, mut p2, cfg) = standing_pair(500, 3400);
    tick(&mut p1, &mut p2, neutral(), neutral(), &cfg);
    assert_eq!(p2.pos.x, 3460 - 200);
    assert_eq!(p1.pos.x, 500);
}

#[test]
fn bounds_hold_over_many_ticks() {
    let (mut p1, mut p2, cfg) = standing_pair(100, 300);
    for i in 0..240 {
        let in1 = if i % 3 == 0 { hold_up() } else { hold_forward_numpad() };
        let in2 = if i % 5 == 0 { hold_down() } else { hold_back_numpad() };
        tick(&mut p1, &mut p2, in1, in2, &cfg);
        assert!(0 <= p1.pos.x && p1.pos.x + 200 <= 3460);
        assert!(0 <= p2.pos.x && p2.pos.x + 200 <= 3460);
        assert!(p1.pos.y + 236 <= 2120);
        assert!(p2.pos.y + 236 <= 2120);
        if p1.is_grounded(&cfg) {
            assert_eq!(p1.vel.x, 0);
        }
        if p2.is_grounded(&cfg) {
            assert_eq!(p2.vel.x, 0);
        }
    }
}
