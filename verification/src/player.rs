//! The player's vehicle and its control policy.
//!
//! Each tick the engine layer reads the input actions and the pointer-aimed
//! turret direction, hands them to `control`, and integrates the returned
//! desired velocity.  The hull turns at the configured rate under the
//! left/right actions; forward drives at full speed along the heading,
//! backward at half speed in reverse, and backward wins when both are held.

use crate::effects::Effect;
use crate::geom::{div_trunc, div_trunc_spec, Vec2};
use crate::tank::{
    shoot_effects, shot, BasicTank, DamageTaker, NodeClass, SceneNode, TankProperties, Velocity,
    MAX_TICK_MS,
};
use vstd::prelude::*;

verus! {

/// Largest hull orientation magnitude, in milliradians, that `control`
/// accepts; orientation is accumulated, never wrapped.
pub const ROTATION_LIMIT_MRAD: i64 = 1_000_000_000_000;

/// The input actions of one tick, as the engine layer read them.
#[derive(Clone, Copy, PartialEq, Eq, Structural, Debug)]
pub struct PlayerInput {
    /// The turn-right action is held.
    pub turn_right: bool,
    /// The turn-left action is held.
    pub turn_left: bool,
    /// The forward action is held.
    pub forward: bool,
    /// The backward action is held.
    pub back: bool,
    /// The fire trigger was pressed this tick (edge, not hold).
    pub fire: bool,
}

/// The player-controlled vehicle: the shared combat state and the hull
/// orientation, in milliradians from the positive x axis.
#[derive(Clone, Copy, PartialEq, Eq, Structural, Debug)]
pub struct Player {
    pub properties: TankProperties,
    pub rotation_mrad: i64,
}

/// Net turn direction of the held actions: right minus left.
pub open spec fn rot_dir(input: PlayerInput) -> int {
    (if input.turn_right {
        1int
    } else {
        0int
    }) - (if input.turn_left {
        1int
    } else {
        0int
    })
}

/// Hull orientation after one tick of turn input.
pub open spec fn turned_rotation(p: Player, input: PlayerInput, delta: int) -> int {
    p.rotation_mrad + div_trunc_spec(p.properties.rotation_speed * rot_dir(input) * delta, 1000)
}

/// Desired velocity under the held drive actions: full speed forward,
/// half speed in reverse, and reverse wins when both are held; standing
/// still otherwise.
pub open spec fn drive_velocity(props: TankProperties, input: PlayerInput, rot: int) -> Velocity {
    if input.back {
        Velocity { speed: (-(props.max_speed as int / 2)) as i64, heading_mrad: rot as i64 }
    } else if input.forward {
        Velocity { speed: props.max_speed, heading_mrad: rot as i64 }
    } else {
        Velocity { speed: 0, heading_mrad: 0 }
    }
}

/// The player after one tick of control: hull turned, velocity chosen,
/// and the gun fired if the trigger was pressed.
pub open spec fn player_controlled(p: Player, input: PlayerInput, delta: int) -> Player {
    let rot = turned_rotation(p, input, delta);
    let driven = TankProperties { velocity: drive_velocity(p.properties, input, rot), ..p.properties };
    let fired = if input.fire {
        shot(driven)
    } else {
        driven
    };
    Player { properties: fired, rotation_mrad: rot as i64 }
}

/// Engine actions of one tick of player control: those of the shot, when
/// the trigger was pressed.
pub open spec fn player_control_effects(
    p: Player,
    input: PlayerInput,
    muzzle_pos: Vec2,
    turret_dir: Vec2,
) -> Seq<Effect> {
    if input.fire {
        shoot_effects(p.properties, muzzle_pos, turret_dir)
    } else {
        Seq::empty()
    }
}

/// The player after one physics tick: control runs only while alive.
pub open spec fn player_processed(p: Player, input: PlayerInput, delta: int) -> Player {
    if p.properties.alive {
        player_controlled(p, input, delta)
    } else {
        p
    }
}

impl Player {
    /// A freshly spawned player vehicle.
    pub fn new() -> (r: Player)
        ensures
            r == (Player { properties: TankProperties::initial(), rotation_mrad: 0 }),
            r.properties.wf(),
    {
        Player { properties: TankProperties::new(), rotation_mrad: 0 }
    }

    /// One tick of the player control policy.  `muzzle_pos` and
    /// `turret_dir` are the pointer-aimed turret's muzzle position and
    /// direction, read by the engine layer; they only ride along on the
    /// shot announcement.
    pub fn control(
        &mut self,
        input: &PlayerInput,
        muzzle_pos: Vec2,
        turret_dir: Vec2,
        delta_ms: i64,
    ) -> (ev: Vec<Effect>)
        requires
            old(self).properties.wf(),
            0 <= delta_ms <= MAX_TICK_MS,
            -ROTATION_LIMIT_MRAD <= old(self).rotation_mrad <= ROTATION_LIMIT_MRAD,
        ensures
            *final(self) == player_controlled(*old(self), *input, delta_ms as int),
            ev@ == player_control_effects(*old(self), *input, muzzle_pos, turret_dir),
            final(self).properties.wf(),
    {
        let mut dir: i64 = 0;
        if input.turn_right {
            dir = dir + 1;
        }
        if input.turn_left {
            dir = dir - 1;
        }
        proof {
            assert(dir == rot_dir(*input));
            let rs = old(self).properties.rotation_speed;
            assert(-100_000_000_000 <= rs * dir * delta_ms <= 100_000_000_000)
                by (nonlinear_arith)
                requires
                    0 <= rs <= 1_000_000,
                    -1 <= dir <= 1,
                    0 <= delta_ms <= 100_000,
            ;
        }
        let step = div_trunc(self.properties.rotation_speed * dir * delta_ms, 1000);
        proof {
            crate::geom::lemma_div_trunc_bound(
                old(self).properties.rotation_speed * dir * delta_ms,
                1000,
                100_000_000,
            );
        }
        self.rotation_mrad = self.rotation_mrad + step;
        let rot = self.rotation_mrad;
        if input.back {
            proof {
                vstd::arithmetic::div_mod::lemma_div_pos_is_pos(
                    old(self).properties.max_speed as int,
                    2,
                );
                vstd::arithmetic::div_mod::lemma_div_nonincreasing(
                    old(self).properties.max_speed as int,
                    2,
                );
            }
            let half = div_trunc(self.properties.max_speed, 2);
            self.properties.velocity = Velocity { speed: -half, heading_mrad: rot };
        } else if input.forward {
            self.properties.velocity = Velocity {
                speed: self.properties.max_speed,
                heading_mrad: rot,
            };
        } else {
            self.properties.velocity = Velocity { speed: 0, heading_mrad: 0 };
        }
        if input.fire {
            self.properties.shoot(muzzle_pos, turret_dir)
        } else {
            Vec::new()
        }
    }

    /// One physics tick: the control policy runs only while the vehicle
    /// is alive; the engine layer then integrates `properties.velocity`
    /// through its collision-aware motion primitive.
    pub fn physics_process(
        &mut self,
        input: &PlayerInput,
        muzzle_pos: Vec2,
        turret_dir: Vec2,
        delta_ms: i64,
    ) -> (ev: Vec<Effect>)
        requires
            old(self).properties.wf(),
            0 <= delta_ms <= MAX_TICK_MS,
            -ROTATION_LIMIT_MRAD <= old(self).rotation_mrad <= ROTATION_LIMIT_MRAD,
        ensures
            *final(self) == player_processed(*old(self), *input, delta_ms as int),
            ev@ == (if old(self).properties.alive {
                player_control_effects(*old(self), *input, muzzle_pos, turret_dir)
            } else {
                Seq::<Effect>::empty()
            }),
            final(self).properties.wf(),
    {
        if !self.properties.alive {
            Vec::new()
        } else {
            self.control(input, muzzle_pos, turret_dir, delta_ms)
        }
    }

    /// The gun-cooldown timer elapsed: the gun is free again.
    pub fn on_gun_timer_timeout(&mut self)
        ensures
            final(self).properties == (TankProperties {
                can_shoot: true,
                cooldown_left: 0,
                ..old(self).properties
            }),
            final(self).rotation_mrad == old(self).rotation_mrad,
    {
        self.properties.on_gun_timer_timeout()
    }

    /// The destruction animation finished: announce death and ask the
    /// engine to remove the vehicle.
    pub fn on_explosion_animation_finished(&self) -> (ev: Vec<Effect>)
        ensures
            ev@ == seq![Effect::EmitDead, Effect::FreeNode],
    {
        self.properties.on_explosion_animation_finished()
    }

    /// Restore health and configure the gun timer: the ready transition
    /// of the shared controller.
    pub fn ready(&mut self) -> (ev: Vec<Effect>)
        requires
            old(self).properties.wf(),
        ensures
            final(self).properties == crate::tank::readied(old(self).properties),
            final(self).rotation_mrad == old(self).rotation_mrad,
            ev@ == crate::tank::ready_effects(old(self).properties),
            final(self).properties.wf(),
    {
        self.properties.ready()
    }
}

/// The routed node is the player's vehicle.
pub open spec fn is_player_node_spec(node: SceneNode) -> bool {
    node.class is Player
}

/// Whether a scene node is the player's vehicle; the enemy detection
/// region tracks only nodes for which this holds.
pub fn is_player_node(node: &SceneNode) -> (r: bool)
    ensures
        r == is_player_node_spec(*node),
{
    match node.class {
        NodeClass::Player(_) => true,
        _ => false,
    }
}

impl DamageTaker for Player {
    open spec fn is_instance(node: SceneNode) -> bool {
        node.class is Player
    }

    fn try_take_damage(node: &mut SceneNode, amount: u8) -> (r: Option<Vec<Effect>>) {
        match node.class {
            NodeClass::Player(mut p) => {
                let ev = p.take_damage(amount);
                node.class = NodeClass::Player(p);
                Some(ev)
            },
            _ => None,
        }
    }
}

impl BasicTank for Player {
    open spec fn props_spec(&self) -> TankProperties {
        self.properties
    }

    open spec fn with_props(self, p: TankProperties) -> Player {
        Player { properties: p, ..self }
    }

    fn props(&self) -> (r: &TankProperties) {
        &self.properties
    }

    fn take_damage(&mut self, amount: u8) -> (ev: Vec<Effect>) {
        self.properties.take_damage(amount)
    }
}

} // verus!
