//! The enemy vehicle: path-driven movement and target engagement.
//!
//! The enemy does not steer its hull.  It advances an offset along a
//! path-follow object owned by the engine; its speed is smoothed toward
//! zero while a lookahead probe reports an obstacle and toward the
//! configured top speed otherwise.  Independently, while a target is
//! tracked, the turret turns toward it and fires when aligned.

use crate::effects::Effect;
use crate::geom::{div_trunc, div_trunc_spec, lerp_scalar, lerp_scalar_spec, Vec2};
use crate::player::{is_player_node, is_player_node_spec};
use crate::tank::{
    BasicTank, DamageTaker, NodeClass, SceneNode, TankProperties, MAX_SPEED_LIMIT, MAX_TICK_MS,
};
use crate::target_shooter::{
    aim_locked, shot_if_locked, turret_turned, TargetShooter, AIM_COORD_LIMIT,
};
use vstd::prelude::*;

verus! {

/// Smoothing factor per tick toward a stop, in thousandths.
pub const BRAKE_BLEND_MILLI: i64 = 100;

/// Smoothing factor per tick toward top speed, in thousandths.
pub const ACCEL_BLEND_MILLI: i64 = 50;

/// The enemy vehicle.
#[derive(Clone, Copy, PartialEq, Eq, Structural, Debug)]
pub struct EnemyTank {
    /// Turn rate of the turret, in thousandths of a full interpolation
    /// per second.
    pub turret_speed: i64,
    /// Radius of the detection region, in milli-units; the engine sizes
    /// its trigger shape with it.
    pub detect_radius: i64,
    /// The shared combat state.
    pub properties: TankProperties,
    /// Current speed along the path, in game units per second; smoothed,
    /// never above `properties.max_speed`.
    pub speed: i64,
    /// The identity of the tracked target node, while one is inside the
    /// detection region.
    pub target: Option<u64>,
    /// The turret's current direction, as a milli-unit vector.
    pub turret_dir: Vec2,
}

/// The enemy's path speed after one control tick: smoothed toward zero
/// when an obstacle is ahead, toward top speed otherwise.
pub open spec fn enemy_speed_after(e: EnemyTank, obstacle_ahead: bool) -> int {
    if obstacle_ahead {
        lerp_scalar_spec(e.speed as int, 0, BRAKE_BLEND_MILLI as int)
    } else {
        lerp_scalar_spec(e.speed as int, e.properties.max_speed as int, ACCEL_BLEND_MILLI as int)
    }
}

impl EnemyTank {
    /// The vehicle's own invariant: consistent combat state, a smoothed
    /// speed within range, and a bounded turret direction.
    pub open spec fn wf(self) -> bool {
        &&& self.properties.wf()
        &&& 0 <= self.speed <= self.properties.max_speed
        &&& self.turret_dir.in_range(1000)
        &&& 0 <= self.turret_speed <= MAX_SPEED_LIMIT
        &&& 0 <= self.detect_radius
    }

    /// A freshly spawned enemy: default combat state, standing start,
    /// turret along the positive x axis, no target.
    pub fn new() -> (r: EnemyTank)
        ensures
            r == (EnemyTank {
                turret_speed: 2000,
                detect_radius: 500_000,
                properties: TankProperties::initial(),
                speed: 0,
                target: None::<u64>,
                turret_dir: Vec2 { x: 1000, y: 0 },
            }),
            r.wf(),
    {
        EnemyTank {
            turret_speed: 2000,
            detect_radius: 500_000,
            properties: TankProperties::new(),
            speed: 0,
            target: None,
            turret_dir: Vec2 { x: 1000, y: 0 },
        }
    }

    /// Restore health and configure the gun timer: the ready transition
    /// of the shared controller.
    pub fn ready(&mut self) -> (ev: Vec<Effect>)
        requires
            old(self).wf(),
        ensures
            *final(self) == (EnemyTank {
                properties: crate::tank::readied(old(self).properties),
                ..*old(self)
            }),
            ev@ == crate::tank::ready_effects(old(self).properties),
            final(self).wf(),
    {
        self.properties.ready()
    }

    /// One control tick: brake while either lookahead probe reports an
    /// obstacle, accelerate otherwise, and report how far, in
    /// milli-units, to advance the path-follow offset this tick.
    pub fn control(&mut self, lookahead1: bool, lookahead2: bool, delta_ms: i64) -> (advance:
        i64)
        requires
            old(self).wf(),
            0 <= delta_ms <= MAX_TICK_MS,
        ensures
            *final(self) == (EnemyTank {
                speed: enemy_speed_after(*old(self), lookahead1 || lookahead2) as i64,
                ..*old(self)
            }),
            advance == enemy_speed_after(*old(self), lookahead1 || lookahead2) * delta_ms,
            final(self).wf(),
    {
        if lookahead1 || lookahead2 {
            self.speed = lerp_scalar(self.speed, 0, BRAKE_BLEND_MILLI);
        } else {
            self.speed = lerp_scalar(self.speed, self.properties.max_speed, ACCEL_BLEND_MILLI);
        }
        proof {
            let s = final(self).speed;
            assert(0 <= s * delta_ms <= 100_000_000_000) by (nonlinear_arith)
                requires
                    0 <= s <= 1_000_000,
                    0 <= delta_ms <= 100_000,
            ;
        }
        self.speed * delta_ms
    }

    /// One physics tick: the control policy runs only while the vehicle
    /// is alive; a destroyed vehicle no longer advances along its path.
    pub fn physics_process(&mut self, lookahead1: bool, lookahead2: bool, delta_ms: i64) -> (advance:
        i64)
        requires
            old(self).wf(),
            0 <= delta_ms <= MAX_TICK_MS,
        ensures
            old(self).properties.alive ==> *final(self) == (EnemyTank {
                speed: enemy_speed_after(*old(self), lookahead1 || lookahead2) as i64,
                ..*old(self)
            }) && advance == enemy_speed_after(*old(self), lookahead1 || lookahead2) * delta_ms,
            !old(self).properties.alive ==> *final(self) == *old(self) && advance == 0,
            final(self).wf(),
    {
        if !self.properties.alive {
            0
        } else {
            self.control(lookahead1, lookahead2, delta_ms)
        }
    }

    /// One frame of target engagement, run by the engine layer while a
    /// target is tracked: turn the turret `turret_speed * delta`
    /// thousandths toward the target's position and fire when aligned.
    /// A destroyed vehicle no longer engages.
    pub fn process(
        &mut self,
        own_pos: Vec2,
        target_pos: Vec2,
        muzzle_pos: Vec2,
        delta_ms: i64,
    ) -> (ev: Vec<Effect>)
        requires
            old(self).wf(),
            old(self).target is Some,
            0 <= delta_ms <= MAX_TICK_MS,
            old(self).turret_speed * delta_ms <= 1_000_000,
            own_pos.in_range(AIM_COORD_LIMIT as int),
            target_pos.in_range(AIM_COORD_LIMIT as int),
            own_pos != target_pos,
        ensures
            ({
                let step = div_trunc_spec(old(self).turret_speed * delta_ms, 1000);
                let nd = turret_turned(own_pos, target_pos, old(self).turret_dir, step);
                let locked = aim_locked(own_pos, target_pos, old(self).turret_dir);
                &&& old(self).properties.alive ==> *final(self) == (EnemyTank {
                    turret_dir: nd,
                    properties: shot_if_locked(old(self).properties, locked),
                    ..*old(self)
                }) && ev@ == (if locked {
                    crate::tank::shoot_effects(old(self).properties, muzzle_pos, nd)
                } else {
                    Seq::<Effect>::empty()
                })
                &&& !old(self).properties.alive ==> *final(self) == *old(self) && ev@ == Seq::<
                    Effect,
                >::empty()
            }),
            final(self).wf(),
    {
        if !self.properties.alive {
            return Vec::new();
        }
        proof {
            let ts = old(self).turret_speed;
            assert(0 <= ts * delta_ms) by (nonlinear_arith)
                requires
                    0 <= ts,
                    0 <= delta_ms,
            ;
            crate::geom::lemma_div_trunc_bound(ts * delta_ms, 1000, 1000);
            vstd::arithmetic::div_mod::lemma_div_pos_is_pos(ts * delta_ms, 1000);
        }
        let step = div_trunc(self.turret_speed * delta_ms, 1000);
        self.engage_target(own_pos, target_pos, muzzle_pos, step)
    }
}

impl EnemyTank {
    /// The gun-cooldown timer elapsed: the gun is free again.
    pub fn on_gun_timer_timeout(&mut self)
        ensures
            *final(self) == (EnemyTank {
                properties: TankProperties {
                    can_shoot: true,
                    cooldown_left: 0,
                    ..old(self).properties
                },
                ..*old(self)
            }),
    {
        self.properties.on_gun_timer_timeout()
    }

    /// The destruction animation finished: announce death and ask the
    /// engine to remove the vehicle.
    pub fn on_explosion_animation_finished(&self) -> (ev: Vec<Effect>)
        ensures
            ev@ == seq![Effect::EmitDead, Effect::FreeNode],
    {
        self.properties.on_explosion_animation_finished()
    }

    /// A body entered the detection region: track it when it is the
    /// player; anything else does not qualify as a target.
    pub fn on_detect_radius_body_entered(&mut self, body: &SceneNode)
        ensures
            is_player_node_spec(*body) ==> *final(self) == (EnemyTank {
                target: Some(body.id),
                ..*old(self)
            }),
            !is_player_node_spec(*body) ==> *final(self) == *old(self),
    {
        if is_player_node(body) {
            self.target = Some(body.id);
        }
    }

    /// A body left the detection region: stop tracking when it is the
    /// player.
    pub fn on_detect_radius_body_exited(&mut self, body: &SceneNode)
        ensures
            is_player_node_spec(*body) ==> *final(self) == (EnemyTank {
                target: None::<u64>,
                ..*old(self)
            }),
            !is_player_node_spec(*body) ==> *final(self) == *old(self),
    {
        if is_player_node(body) {
            self.target = None;
        }
    }
}

impl DamageTaker for EnemyTank {
    open spec fn is_instance(node: SceneNode) -> bool {
        node.class is EnemyTank
    }

    fn try_take_damage(node: &mut SceneNode, amount: u8) -> (r: Option<Vec<Effect>>) {
        match node.class {
            NodeClass::EnemyTank(mut e) => {
                let ev = e.take_damage(amount);
                node.class = NodeClass::EnemyTank(e);
                Some(ev)
            },
            _ => None,
        }
    }
}

impl BasicTank for EnemyTank {
    open spec fn props_spec(&self) -> TankProperties {
        self.properties
    }

    open spec fn with_props(self, p: TankProperties) -> EnemyTank {
        EnemyTank { properties: p, ..self }
    }

    fn props(&self) -> (r: &TankProperties) {
        &self.properties
    }

    fn take_damage(&mut self, amount: u8) -> (ev: Vec<Effect>) {
        self.properties.take_damage(amount)
    }
}

impl TargetShooter for EnemyTank {
    open spec fn turret_dir_spec(&self) -> Vec2 {
        self.turret_dir
    }

    open spec fn with_turret_dir(self, d: Vec2) -> EnemyTank {
        EnemyTank { turret_dir: d, ..self }
    }

    fn engage_target(
        &mut self,
        own_pos: Vec2,
        target_pos: Vec2,
        muzzle_pos: Vec2,
        step_milli: i64,
    ) -> (ev: Vec<Effect>) {
        let diff = target_pos.minus(own_pos);
        let target_dir = crate::geom::normalize_milli(diff);
        let current_dir = self.turret_dir;
        let aligned = crate::geom::dot(target_dir, current_dir)
            > crate::target_shooter::AIM_DOT_THRESHOLD;
        let v = crate::geom::lerp_milli(current_dir, target_dir, step_milli);
        if !(v.x == 0 && v.y == 0) {
            self.turret_dir = crate::geom::normalize_milli(v);
        }
        if aligned {
            self.properties.shoot(muzzle_pos, self.turret_dir)
        } else {
            Vec::new()
        }
    }
}

} // verus!
