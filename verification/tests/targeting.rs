//! The enemy: aiming, the fire threshold, path movement, detection.

use tank_combat::effects::Effect;
use tank_combat::enemy_tank::EnemyTank;
use tank_combat::geom::{dot, normalize_milli, Vec2};
use tank_combat::player::Player;
use tank_combat::tank::{NodeClass, SceneNode};
use tank_combat::target_shooter::{TargetShooter, AIM_DOT_THRESHOLD};

fn has_shoot(ev: &[Effect]) -> bool {
    ev.iter().any(|e| matches!(e, Effect::EmitShoot { .. }))
}

#[test]
fn rotates_into_alignment_then_fires_exactly_once() {
    let mut e = EnemyTank::new();
    assert_eq!(e.turret_dir, Vec2 { x: 1000, y: 0 });

    let own = Vec2 { x: 0, y: 0 };
    // the target sits on the diagonal: aim error 45 degrees, outside the
    // threshold of about 26 degrees
    let target = Vec2 { x: 100_000, y: 100_000 };
    let muzzle = Vec2 { x: 2000, y: 0 };
    let target_dir = normalize_milli(Vec2 { x: 100_000, y: 100_000 });
    assert_eq!(target_dir, Vec2 { x: 707, y: 707 });
    assert!(dot(target_dir, e.turret_dir) <= AIM_DOT_THRESHOLD);

    // turn step per tick: turret_speed 2.0 per second, ticks of 16 ms
    let step: i64 = 32;
    let mut shots: u32 = 0;
    let mut ticks_to_first_shot: u32 = 0;
    for tick in 0..200 {
        let aligned = dot(target_dir, e.turret_dir) > AIM_DOT_THRESHOLD;
        let ev = e.engage_target(own, target, muzzle, step);
        // the gun fires exactly when the tick began aligned with a free gun
        assert_eq!(has_shoot(&ev), aligned && shots == 0);
        if has_shoot(&ev) {
            shots += 1;
            ticks_to_first_shot = tick;
        }
        if shots > 0 && tick > ticks_to_first_shot + 2 {
            break;
        }
    }
    assert_eq!(shots, 1);
    assert!(ticks_to_first_shot > 0);
    assert!(!e.properties.can_shoot);
}

#[test]
fn misaligned_target_draws_no_fire() {
    let mut e = EnemyTank::new();
    let ev = e.engage_target(
        Vec2 { x: 0, y: 0 },
        Vec2 { x: 0, y: 50_000 },
        Vec2 { x: 0, y: 0 },
        32,
    );
    assert!(ev.is_empty());
    assert!(e.properties.can_shoot);
    // but the turret turned toward the target
    assert!(e.turret_dir.y > 0);
}

#[test]
fn aligned_target_draws_fire_with_the_new_turret_direction() {
    let mut e = EnemyTank::new();
    // target straight along the initial turret direction
    let ev = e.engage_target(
        Vec2 { x: 0, y: 0 },
        Vec2 { x: 50_000, y: 0 },
        Vec2 { x: 1500, y: 0 },
        32,
    );
    assert_eq!(
        ev,
        vec![
            Effect::PlayAnimation { anim: tank_combat::effects::Anim::MuzzleFlash },
            Effect::StartGunTimer,
            Effect::EmitShoot {
                position: Vec2 { x: 1500, y: 0 },
                direction: Vec2 { x: 1000, y: 0 },
            },
        ]
    );
    assert!(!e.properties.can_shoot);
}

#[test]
fn dead_enemy_neither_aims_nor_fires() {
    let mut e = EnemyTank::new();
    e.target = Some(11);
    e.properties.take_damage(100);
    assert!(!e.properties.alive);
    let before = e;
    let ev = e.process(
        Vec2 { x: 0, y: 0 },
        Vec2 { x: 50_000, y: 0 },
        Vec2 { x: 0, y: 0 },
        16,
    );
    assert!(ev.is_empty());
    assert_eq!(e, before);
}

#[test]
fn speed_smooths_toward_top_speed_and_back() {
    let mut e = EnemyTank::new();
    assert_eq!(e.speed, 0);
    assert_eq!(e.properties.max_speed, 200);

    // open road: blend a twentieth of the way toward top speed
    let advance = e.control(false, false, 16);
    assert_eq!(e.speed, 10);
    assert_eq!(advance, 160);

    // obstacle ahead: blend a tenth of the way back toward a stop
    let advance = e.control(false, true, 16);
    assert_eq!(e.speed, 9);
    assert_eq!(advance, 144);
}

#[test]
fn dead_enemy_does_not_advance() {
    let mut e = EnemyTank::new();
    e.speed = 50;
    e.properties.alive = false;
    let before = e;
    let advance = e.physics_process(false, false, 16);
    assert_eq!(advance, 0);
    assert_eq!(e, before);
}

#[test]
fn detection_tracks_only_the_player() {
    let mut e = EnemyTank::new();
    assert_eq!(e.target, None);

    let wall = SceneNode { id: 3, damage_taker: false, class: NodeClass::Other };
    e.on_detect_radius_body_entered(&wall);
    assert_eq!(e.target, None);

    let player = SceneNode {
        id: 8,
        damage_taker: true,
        class: NodeClass::Player(Player::new()),
    };
    e.on_detect_radius_body_entered(&player);
    assert_eq!(e.target, Some(8));

    e.on_detect_radius_body_exited(&wall);
    assert_eq!(e.target, Some(8));
    e.on_detect_radius_body_exited(&player);
    assert_eq!(e.target, None);
}

#[test]
fn enemy_gun_timer_callback_frees_the_gun() {
    let mut e = EnemyTank::new();
    e.engage_target(Vec2 { x: 0, y: 0 }, Vec2 { x: 50_000, y: 0 }, Vec2 { x: 0, y: 0 }, 32);
    assert!(!e.properties.can_shoot);
    e.on_gun_timer_timeout();
    assert!(e.properties.can_shoot);
    assert_eq!(
        e.on_explosion_animation_finished(),
        vec![Effect::EmitDead, Effect::FreeNode]
    );
}

#[test]
fn zero_turn_step_leaves_the_turret_but_still_fires_when_aligned() {
    let mut e = EnemyTank::new();
    let ev = e.engage_target(
        Vec2 { x: 0, y: 0 },
        Vec2 { x: 40_000, y: 0 },
        Vec2 { x: 0, y: 0 },
        0,
    );
    assert_eq!(e.turret_dir, Vec2 { x: 1000, y: 0 });
    assert!(has_shoot(&ev));
}
