//! The player control policy: turning, driving, firing.

use tank_combat::effects::Effect;
use tank_combat::geom::Vec2;
use tank_combat::player::{Player, PlayerInput};
use tank_combat::tank::Velocity;

fn idle() -> PlayerInput {
    PlayerInput { turn_right: false, turn_left: false, forward: false, back: false, fire: false }
}

const MUZZLE: Vec2 = Vec2 { x: 1200, y: 0 };
const AIM: Vec2 = Vec2 { x: 1000, y: 0 };

#[test]
fn forward_drives_at_full_speed_along_the_heading() {
    let mut p = Player::new();
    p.rotation_mrad = 300;
    let input = PlayerInput { forward: true, ..idle() };
    let ev = p.control(&input, MUZZLE, AIM, 16);
    assert!(ev.is_empty());
    assert_eq!(p.properties.velocity, Velocity { speed: 200, heading_mrad: 300 });
}

#[test]
fn backward_reverses_at_half_speed() {
    let mut p = Player::new();
    let input = PlayerInput { back: true, ..idle() };
    p.control(&input, MUZZLE, AIM, 16);
    assert_eq!(p.properties.velocity, Velocity { speed: -100, heading_mrad: 0 });
}

#[test]
fn backward_wins_when_both_are_held() {
    let mut p = Player::new();
    let input = PlayerInput { forward: true, back: true, ..idle() };
    p.control(&input, MUZZLE, AIM, 16);
    assert_eq!(p.properties.velocity.speed, -100);
}

#[test]
fn no_drive_input_stands_still() {
    let mut p = Player::new();
    p.control(&idle(), MUZZLE, AIM, 16);
    assert_eq!(p.properties.velocity, Velocity { speed: 0, heading_mrad: 0 });
}

#[test]
fn turning_integrates_the_rotation_rate() {
    let mut p = Player::new();
    assert_eq!(p.properties.rotation_speed, 1000);

    let input = PlayerInput { turn_right: true, ..idle() };
    p.control(&input, MUZZLE, AIM, 16);
    assert_eq!(p.rotation_mrad, 16);

    let input = PlayerInput { turn_left: true, ..idle() };
    p.control(&input, MUZZLE, AIM, 16);
    p.control(&input, MUZZLE, AIM, 16);
    assert_eq!(p.rotation_mrad, -16);

    // both turn actions cancel
    let input = PlayerInput { turn_right: true, turn_left: true, ..idle() };
    p.control(&input, MUZZLE, AIM, 16);
    assert_eq!(p.rotation_mrad, -16);
}

#[test]
fn fire_edge_shoots_once_and_locks_the_gun() {
    let mut p = Player::new();
    let input = PlayerInput { fire: true, ..idle() };
    let ev = p.control(&input, MUZZLE, AIM, 16);
    assert_eq!(ev.len(), 3);
    assert_eq!(ev[2], Effect::EmitShoot { position: MUZZLE, direction: AIM });
    assert!(!p.properties.can_shoot);

    // the trigger again, still on cooldown: no shot
    let ev = p.control(&input, MUZZLE, AIM, 16);
    assert!(ev.is_empty());
}

#[test]
fn dead_player_ignores_input() {
    let mut p = Player::new();
    p.properties.take_damage(100);
    assert!(!p.properties.alive);
    let before = p;
    let input = PlayerInput { forward: true, fire: true, turn_right: true, ..idle() };
    let ev = p.physics_process(&input, MUZZLE, AIM, 16);
    assert!(ev.is_empty());
    assert_eq!(p, before);
}

#[test]
fn odd_top_speed_halves_toward_zero() {
    let mut p = Player::new();
    p.properties.max_speed = 201;
    let input = PlayerInput { back: true, ..idle() };
    p.control(&input, MUZZLE, AIM, 16);
    assert_eq!(p.properties.velocity.speed, -100);
}

#[test]
fn player_gun_timer_callback_frees_the_gun() {
    let mut p = Player::new();
    let input = PlayerInput { fire: true, ..idle() };
    p.control(&input, MUZZLE, AIM, 16);
    assert!(!p.properties.can_shoot);
    p.on_gun_timer_timeout();
    assert!(p.properties.can_shoot);
    assert_eq!(
        p.on_explosion_animation_finished(),
        vec![Effect::EmitDead, Effect::FreeNode]
    );
}
