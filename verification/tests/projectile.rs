//! The projectile lifecycle: flight, timeout, collision, idempotence.

use tank_combat::bullet::Bullet;
use tank_combat::effects::{Anim, Effect};
use tank_combat::enemy_tank::EnemyTank;
use tank_combat::geom::Vec2;
use tank_combat::tank::{NodeClass, SceneNode};

#[test]
fn flight_is_exact_linear_motion_until_timeout() {
    let mut b = Bullet::new();
    assert_eq!(b.speed, 750);
    assert_eq!(b.lifetime, 1000);

    b.start(Vec2 { x: 0, y: 0 }, Vec2 { x: 1000, y: 0 });
    assert_eq!(b.velocity, Vec2 { x: 750, y: 0 });
    assert_eq!(b.time_left, 1000);

    // nine frames of 100 ms: position is speed times elapsed time, exactly
    let mut elapsed: i64 = 0;
    for _ in 0..9 {
        let ev = b.process(100);
        elapsed += 100;
        assert!(ev.is_empty());
        assert!(!b.exploding);
        // milli-units: 750 units/s for `elapsed` ms
        assert_eq!(b.position, Vec2 { x: 750 * elapsed, y: 0 });
    }
    assert_eq!(b.position, Vec2 { x: 675_000, y: 0 });

    // the tenth frame completes the lifetime: the timeout path explodes
    // the bullet, once, with no damage routed anywhere
    let ev = b.process(100);
    assert!(b.exploding);
    assert_eq!(b.position, Vec2 { x: 750_000, y: 0 });
    assert_eq!(b.velocity, Vec2 { x: 0, y: 0 });
    assert_eq!(
        ev,
        vec![
            Effect::HideSprite,
            Effect::ShowExplosion,
            Effect::PlayAnimation { anim: Anim::Smoke },
        ]
    );

    // after the explosion it neither moves nor explodes again
    let ev = b.process(100);
    assert!(ev.is_empty());
    assert_eq!(b.position, Vec2 { x: 750_000, y: 0 });
}

#[test]
fn bullet_explode_has_effect_only_on_first_call() {
    let mut b = Bullet::new();
    b.start(Vec2 { x: 0, y: 0 }, Vec2 { x: 0, y: 1000 });
    let (hit, ev) = b.explode();
    assert!(hit);
    assert_eq!(ev.len(), 3);
    assert!(b.exploding);

    let (hit, ev) = b.explode();
    assert!(!hit);
    assert!(ev.is_empty());
    assert!(b.exploding);
}

#[test]
fn timeout_callback_explodes_once() {
    let mut b = Bullet::new();
    b.start(Vec2 { x: 0, y: 0 }, Vec2 { x: 1000, y: 0 });
    let ev = b.on_lifetime_timeout();
    assert_eq!(ev.len(), 3);
    let ev = b.on_lifetime_timeout();
    assert!(ev.is_empty());
}

#[test]
fn collision_routes_damage_to_the_struck_vehicle() {
    let mut b = Bullet::new();
    b.start(Vec2 { x: 0, y: 0 }, Vec2 { x: 1000, y: 0 });
    let mut node = SceneNode {
        id: 9,
        damage_taker: true,
        class: NodeClass::EnemyTank(EnemyTank::new()),
    };

    let ev = b.on_body_entered(&mut node);
    assert!(b.exploding);
    match &node.class {
        NodeClass::EnemyTank(e) => assert_eq!(e.properties.health, 90),
        _ => panic!("wrong class"),
    }
    assert_eq!(
        ev,
        vec![
            Effect::HideSprite,
            Effect::ShowExplosion,
            Effect::PlayAnimation { anim: Anim::Smoke },
            Effect::EmitHealthChanged { health: 90, max_health: 100 },
        ]
    );

    // an exploding bullet deals no further damage
    let ev = b.on_body_entered(&mut node);
    assert!(ev.is_empty());
    match &node.class {
        NodeClass::EnemyTank(e) => assert_eq!(e.properties.health, 90),
        _ => panic!("wrong class"),
    }
}

#[test]
fn collision_with_untagged_node_only_explodes() {
    let mut b = Bullet::new();
    b.start(Vec2 { x: 0, y: 0 }, Vec2 { x: 1000, y: 0 });
    let mut node = SceneNode { id: 1, damage_taker: false, class: NodeClass::Other };
    let before = node;
    let ev = b.on_body_entered(&mut node);
    assert!(b.exploding);
    assert_eq!(node, before);
    assert_eq!(ev.len(), 3);
}

#[test]
fn start_scales_diagonal_directions() {
    let mut b = Bullet::new();
    // a unit-scaled diagonal: components 707 of 1000
    b.start(Vec2 { x: 100, y: 200 }, Vec2 { x: 707, y: -707 });
    assert_eq!(b.position, Vec2 { x: 100, y: 200 });
    // 707 * 750 / 1000, truncated toward zero
    assert_eq!(b.velocity, Vec2 { x: 530, y: -530 });
}

#[test]
fn impact_animation_finishes_into_removal() {
    let b = Bullet::new();
    assert_eq!(b.on_explosion_animation_finished(), vec![Effect::FreeNode]);
}

#[test]
fn timeout_mid_tick_still_moves_the_full_frame() {
    let mut b = Bullet::new();
    b.start(Vec2 { x: 0, y: 0 }, Vec2 { x: 1000, y: 0 });
    // frames of 300 ms: the lifetime of 1000 ms elapses during the fourth
    for _ in 0..3 {
        let ev = b.process(300);
        assert!(ev.is_empty());
    }
    assert_eq!(b.position, Vec2 { x: 675_000, y: 0 });
    assert_eq!(b.time_left, 100);
    let ev = b.process(300);
    assert!(b.exploding);
    assert_eq!(ev.len(), 3);
    // the frame's motion is applied before the timeout fires
    assert_eq!(b.position, Vec2 { x: 900_000, y: 0 });
    assert_eq!(b.time_left, 0);
}
