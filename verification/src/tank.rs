//! The shared combat controller of every vehicle.
//!
//! `TankProperties` holds a vehicle's configuration and combat state and
//! carries the lifecycle state machine all vehicles share: ready, firing,
//! taking damage, exploding, dead.  Speeds are in game units per second,
//! durations in milliseconds, directions in milli-unit vectors.

use crate::effects::{Anim, Effect};
use crate::enemy_tank::EnemyTank;
use crate::geom::Vec2;
use crate::gun_turret::GunTurret;
use crate::player::Player;
use vstd::prelude::*;

verus! {

/// Longest accepted gun cooldown, in milliseconds.
pub const MAX_COOLDOWN_MS: i64 = 1_000_000_000;

/// Largest accepted linear or angular speed (units per second,
/// milliradians per second).
pub const MAX_SPEED_LIMIT: i64 = 1_000_000;

/// Longest tick, in milliseconds, that the control policies accept.
pub const MAX_TICK_MS: i64 = 100_000;

/// A desired linear velocity in polar form: `speed` game units per second
/// along the heading `heading_mrad`, in milliradians from the positive x
/// axis.  The engine layer resolves it to a cartesian vector when it
/// integrates motion.
#[derive(Clone, Copy, PartialEq, Eq, Structural, Debug)]
pub struct Velocity {
    pub speed: i64,
    pub heading_mrad: i64,
}

/// Configuration and combat state of one vehicle.
#[derive(Clone, Copy, PartialEq, Eq, Structural, Debug)]
pub struct TankProperties {
    /// Top linear speed, in game units per second.
    pub max_speed: i64,
    /// Turn rate of the hull, in milliradians per second.
    pub rotation_speed: i64,
    /// Minimum interval between shots, in milliseconds.
    pub gun_cooldown: i64,
    /// Health at spawn, and the largest health can ever be.
    pub max_health: u8,
    /// Desired velocity, recomputed each tick by the control policy.
    pub velocity: Velocity,
    /// Current health; never above `max_health`.
    pub health: u8,
    /// True unless a shot is waiting out its cooldown.
    pub can_shoot: bool,
    /// Becomes false exactly once, when health reaches zero.
    pub alive: bool,
    /// Milliseconds left on the gun-cooldown timer; zero when the gun
    /// is free to fire.
    pub cooldown_left: i64,
}

impl TankProperties {
    /// The configuration is sane and the combat state is consistent.
    pub open spec fn wf(self) -> bool {
        &&& self.health <= self.max_health
        &&& 0 < self.max_health
        &&& 0 < self.gun_cooldown <= MAX_COOLDOWN_MS
        &&& 0 <= self.cooldown_left <= self.gun_cooldown
        &&& (self.can_shoot ==> self.cooldown_left == 0)
        &&& 0 <= self.max_speed <= MAX_SPEED_LIMIT
        &&& 0 <= self.rotation_speed <= MAX_SPEED_LIMIT
        &&& -MAX_SPEED_LIMIT <= self.velocity.speed <= MAX_SPEED_LIMIT
    }

    /// The state of a vehicle as spawned: full health, gun free,
    /// standing still.
    pub open spec fn initial() -> TankProperties {
        TankProperties {
            max_speed: 200,
            rotation_speed: 1000,
            gun_cooldown: 500,
            max_health: 100,
            velocity: Velocity { speed: 0, heading_mrad: 0 },
            health: 100,
            can_shoot: true,
            alive: true,
            cooldown_left: 0,
        }
    }

    /// A vehicle as spawned: full health, gun free, standing still.
    pub fn new() -> (r: TankProperties)
        ensures
            r == TankProperties::initial(),
            r.wf(),
    {
        TankProperties {
            max_speed: 200,
            rotation_speed: 1000,
            gun_cooldown: 500,
            max_health: 100,
            velocity: Velocity { speed: 0, heading_mrad: 0 },
            health: 100,
            can_shoot: true,
            alive: true,
            cooldown_left: 0,
        }
    }
}

impl Default for TankProperties {
    /// Same vehicle as `new`.
    fn default() -> (r: TankProperties)
        ensures
            r == TankProperties::initial(),
    {
        TankProperties::new()
    }
}

/// Health after `amount` damage: subtraction stopping at zero.
pub open spec fn sat_sub_health(p: TankProperties, amount: u8) -> u8 {
    if amount <= p.health {
        (p.health - amount) as u8
    } else {
        0u8
    }
}

/// The Active-to-Exploding transition: `alive` falls, once.
pub open spec fn exploded(p: TankProperties) -> TankProperties {
    if p.alive {
        TankProperties { alive: false, ..p }
    } else {
        p
    }
}

/// Engine actions of the Active-to-Exploding transition; none when the
/// vehicle is already destroyed.
pub open spec fn explode_effects(p: TankProperties) -> Seq<Effect> {
    if p.alive {
        seq![
            Effect::DisableCollisionDeferred,
            Effect::HideTurret,
            Effect::HideBody,
            Effect::ShowExplosion,
            Effect::PlayAnimation { anim: Anim::Fire },
        ]
    } else {
        Seq::empty()
    }
}

/// State after taking `amount` damage: health falls, stopping at zero;
/// reaching zero destroys a living vehicle.
pub open spec fn damaged(p: TankProperties, amount: u8) -> TankProperties {
    let h = sat_sub_health(p, amount);
    let lowered = TankProperties { health: h, ..p };
    if h == 0 {
        exploded(lowered)
    } else {
        lowered
    }
}

/// Engine actions of taking damage: always the health notification, and
/// the explosion sequence when health reaches zero on a living vehicle.
pub open spec fn damage_effects(p: TankProperties, amount: u8) -> Seq<Effect> {
    let h = sat_sub_health(p, amount);
    let head = seq![
        Effect::EmitHealthChanged { health: h, max_health: p.max_health },
    ];
    if h == 0 {
        head + explode_effects(p)
    } else {
        head
    }
}

/// State after a shoot request: a free gun locks and starts its cooldown;
/// a locked gun ignores the request.
pub open spec fn shot(p: TankProperties) -> TankProperties {
    if p.can_shoot {
        TankProperties { can_shoot: false, cooldown_left: p.gun_cooldown, ..p }
    } else {
        p
    }
}

/// Engine actions of a shoot request: none unless the gun was free.
pub open spec fn shoot_effects(p: TankProperties, muzzle_pos: Vec2, turret_dir: Vec2) -> Seq<
    Effect,
> {
    if p.can_shoot {
        seq![
            Effect::PlayAnimation { anim: Anim::MuzzleFlash },
            Effect::StartGunTimer,
            Effect::EmitShoot { position: muzzle_pos, direction: turret_dir },
        ]
    } else {
        Seq::empty()
    }
}

/// State after `delta` milliseconds on the gun-cooldown timer: the timer
/// runs down and frees the gun exactly when it elapses.
pub open spec fn ticked(p: TankProperties, delta: int) -> TankProperties {
    if p.can_shoot {
        p
    } else if delta >= p.cooldown_left {
        TankProperties { can_shoot: true, cooldown_left: 0, ..p }
    } else {
        TankProperties { cooldown_left: (p.cooldown_left - delta) as i64, ..p }
    }
}

/// State after the Initializing-to-Active transition: health restored to
/// the configured maximum.
pub open spec fn readied(p: TankProperties) -> TankProperties {
    TankProperties { health: p.max_health, ..p }
}

/// Engine actions of becoming ready: configure the gun timer and announce
/// full health.
pub open spec fn ready_effects(p: TankProperties) -> Seq<Effect> {
    seq![
        Effect::SetGunTimerWait { wait_ms: p.gun_cooldown },
        Effect::EmitHealthChanged { health: p.max_health, max_health: p.max_health },
    ]
}

impl TankProperties {
    /// Resolve references, restore health, configure the cooldown timer,
    /// announce full health: the Initializing-to-Active transition.
    pub fn ready(&mut self) -> (ev: Vec<Effect>)
        requires
            old(self).wf(),
        ensures
            *final(self) == readied(*old(self)),
            ev@ == ready_effects(*old(self)),
            final(self).wf(),
    {
        self.health = self.max_health;
        let mut ev: Vec<Effect> = Vec::new();
        ev.push(Effect::SetGunTimerWait { wait_ms: self.gun_cooldown });
        ev.push(Effect::EmitHealthChanged { health: self.health, max_health: self.max_health });
        proof {
            assert(ev@ =~= ready_effects(*old(self)));
        }
        ev
    }

    /// Destroy the vehicle: hide its visuals, defer the collision change
    /// to the end of the physics step, start the destruction animation.
    /// A second call is a no-op: `alive` guards every effect.
    pub fn explode(&mut self) -> (ev: Vec<Effect>)
        ensures
            *final(self) == exploded(*old(self)),
            ev@ == explode_effects(*old(self)),
            old(self).wf() ==> final(self).wf(),
    {
        let mut ev: Vec<Effect> = Vec::new();
        if self.alive {
            self.alive = false;
            ev.push(Effect::DisableCollisionDeferred);
            ev.push(Effect::HideTurret);
            ev.push(Effect::HideBody);
            ev.push(Effect::ShowExplosion);
            ev.push(Effect::PlayAnimation { anim: Anim::Fire });
        }
        proof {
            assert(ev@ =~= explode_effects(*old(self)));
        }
        ev
    }

    /// Apply `amount` damage: health falls, stopping at zero, and the new
    /// health is announced; a living vehicle whose health reaches zero
    /// explodes, exactly once.
    pub fn take_damage(&mut self, amount: u8) -> (ev: Vec<Effect>)
        requires
            old(self).wf(),
        ensures
            *final(self) == damaged(*old(self), amount),
            ev@ == damage_effects(*old(self), amount),
            final(self).wf(),
    {
        let new_health: u8 = if amount <= self.health {
            self.health - amount
        } else {
            0
        };
        self.health = new_health;
        let mut ev: Vec<Effect> = Vec::new();
        ev.push(Effect::EmitHealthChanged { health: new_health, max_health: self.max_health });
        if new_health == 0 {
            let mut rest = self.explode();
            ev.append(&mut rest);
        }
        proof {
            assert(ev@ =~= damage_effects(*old(self), amount));
        }
        ev
    }

    /// Request a shot toward `turret_dir` from `muzzle_pos`.  A no-op
    /// whenever the gun is locked; otherwise the gun locks, its cooldown
    /// starts, and the shot is announced for the engine to instantiate.
    pub fn shoot(&mut self, muzzle_pos: Vec2, turret_dir: Vec2) -> (ev: Vec<Effect>)
        requires
            old(self).wf(),
        ensures
            *final(self) == shot(*old(self)),
            ev@ == shoot_effects(*old(self), muzzle_pos, turret_dir),
            final(self).wf(),
    {
        let mut ev: Vec<Effect> = Vec::new();
        if self.can_shoot {
            self.can_shoot = false;
            self.cooldown_left = self.gun_cooldown;
            ev.push(Effect::PlayAnimation { anim: Anim::MuzzleFlash });
            ev.push(Effect::StartGunTimer);
            ev.push(Effect::EmitShoot { position: muzzle_pos, direction: turret_dir });
        }
        proof {
            assert(ev@ =~= shoot_effects(*old(self), muzzle_pos, turret_dir));
        }
        ev
    }

    /// Advance the gun-cooldown timer by `delta_ms`.  Returns true exactly
    /// when the timer elapses on this tick and frees the gun — the only
    /// way `can_shoot` returns to true after a shot.
    pub fn gun_timer_tick(&mut self, delta_ms: i64) -> (timed_out: bool)
        requires
            old(self).wf(),
            0 <= delta_ms <= MAX_COOLDOWN_MS,
        ensures
            *final(self) == ticked(*old(self), delta_ms as int),
            timed_out == (!old(self).can_shoot && delta_ms >= old(self).cooldown_left),
            final(self).wf(),
    {
        if self.can_shoot {
            false
        } else if delta_ms >= self.cooldown_left {
            self.on_gun_timer_timeout();
            true
        } else {
            self.cooldown_left = self.cooldown_left - delta_ms;
            false
        }
    }

    /// The gun-cooldown timer elapsed: the gun is free again.
    pub fn on_gun_timer_timeout(&mut self)
        ensures
            *final(self) == (TankProperties { can_shoot: true, cooldown_left: 0, ..*old(self) }),
            old(self).wf() ==> final(self).wf(),
    {
        self.can_shoot = true;
        self.cooldown_left = 0;
    }

    /// The destruction animation finished: announce death and ask the
    /// engine to remove the vehicle.  The Exploding-to-Dead transition.
    pub fn on_explosion_animation_finished(&self) -> (ev: Vec<Effect>)
        ensures
            ev@ == seq![Effect::EmitDead, Effect::FreeNode],
    {
        let mut ev: Vec<Effect> = Vec::new();
        ev.push(Effect::EmitDead);
        ev.push(Effect::FreeNode);
        proof {
            assert(ev@ =~= seq![Effect::EmitDead, Effect::FreeNode]);
        }
        ev
    }
}

/// Behaviour shared by every combat vehicle: each owns a `TankProperties`
/// and routes damage through the shared controller.  The vehicle-specific
/// control policies keep their own signatures on the concrete types.
pub trait BasicTank: Sized {
    /// The combat state the shared controller works on.
    spec fn props_spec(&self) -> TankProperties;

    /// The vehicle with its combat state replaced and all its own fields
    /// kept.
    spec fn with_props(self, p: TankProperties) -> Self;

    /// Read access to the shared combat state.
    fn props(&self) -> (r: &TankProperties)
        ensures
            *r == self.props_spec(),
    ;

    /// Apply `amount` damage through the shared controller; only the
    /// combat state changes.
    fn take_damage(&mut self, amount: u8) -> (ev: Vec<Effect>)
        requires
            old(self).props_spec().wf(),
        ensures
            *final(self) == old(self).with_props(damaged(old(self).props_spec(), amount)),
            ev@ == damage_effects(old(self).props_spec(), amount),
    ;
}

/// The vehicle a routed scene node holds, if any.  The engine has no
/// shared dynamic-dispatch interface across its bound types, so the
/// damage router probes the known concrete vehicle types in turn.
#[derive(Clone, Copy, PartialEq, Eq, Structural, Debug)]
pub enum NodeClass {
    Player(Player),
    EnemyTank(EnemyTank),
    GunTurret(GunTurret),
    /// Any collidable node that is no vehicle: walls, obstacles, props.
    Other,
}

/// A scene node as the damage router sees it: its identity, whether it
/// carries the damage-taker tag, and the vehicle it holds, if any.
#[derive(Clone, Copy, PartialEq, Eq, Structural, Debug)]
pub struct SceneNode {
    /// The node's identity in the scene.
    pub id: u64,
    /// The node carries the damage-taker tag and is eligible for damage.
    pub damage_taker: bool,
    /// The vehicle bound to the node, if any.
    pub class: NodeClass,
}

impl SceneNode {
    /// The vehicle the node holds, if any, is well formed.
    pub open spec fn wf(self) -> bool {
        match self.class {
            NodeClass::Player(p) => p.properties.wf(),
            NodeClass::EnemyTank(e) => e.wf(),
            NodeClass::GunTurret(g) => g.properties.wf(),
            NodeClass::Other => true,
        }
    }
}

/// The node after `amount` damage to the vehicle it holds; a node with no
/// vehicle is untouched.
pub open spec fn node_damaged(n: SceneNode, amount: u8) -> SceneNode {
    match n.class {
        NodeClass::Player(p) => SceneNode {
            class: NodeClass::Player(Player { properties: damaged(p.properties, amount), ..p }),
            ..n
        },
        NodeClass::EnemyTank(e) => SceneNode {
            class: NodeClass::EnemyTank(
                EnemyTank { properties: damaged(e.properties, amount), ..e },
            ),
            ..n
        },
        NodeClass::GunTurret(g) => SceneNode {
            class: NodeClass::GunTurret(GunTurret { properties: damaged(g.properties, amount) }),
            ..n
        },
        NodeClass::Other => n,
    }
}

/// Engine actions of damaging the vehicle a node holds; none for a node
/// with no vehicle.
pub open spec fn node_damage_effects(n: SceneNode, amount: u8) -> Seq<Effect> {
    match n.class {
        NodeClass::Player(p) => damage_effects(p.properties, amount),
        NodeClass::EnemyTank(e) => damage_effects(e.properties, amount),
        NodeClass::GunTurret(g) => damage_effects(g.properties, amount),
        NodeClass::Other => Seq::empty(),
    }
}

/// One probe of the damage router: a vehicle type that can recognise
/// itself in a routed node and apply damage to exactly that vehicle.
pub trait DamageTaker: BasicTank {
    /// The routed node holds a vehicle of this concrete type.
    spec fn is_instance(node: SceneNode) -> bool;

    /// Apply `amount` damage when the node holds a vehicle of this type;
    /// report `None`, touching nothing, when it does not.
    fn try_take_damage(node: &mut SceneNode, amount: u8) -> (r: Option<Vec<Effect>>)
        requires
            old(node).wf(),
        ensures
            r is Some <==> Self::is_instance(*old(node)),
            Self::is_instance(*old(node)) ==> *final(node) == node_damaged(*old(node), amount),
            !Self::is_instance(*old(node)) ==> *final(node) == *old(node),
            r matches Some(ev) ==> ev@ == node_damage_effects(*old(node), amount),
            final(node).wf(),
    ;
}

/// The damage router: apply `damage` to whatever vehicle owns the node a
/// projectile hit.  A node without the damage-taker tag is no error and
/// is left untouched; a tagged node must hold one of the known vehicle
/// types — a tagged node with none is a malformed scene, ruled out here
/// rather than recovered from.
pub fn take_damage(target: &mut SceneNode, damage: u8) -> (ev: Vec<Effect>)
    requires
        old(target).wf(),
        old(target).damage_taker ==> !(old(target).class is Other),
    ensures
        !old(target).damage_taker ==> *final(target) == *old(target) && ev@ == Seq::<
            Effect,
        >::empty(),
        old(target).damage_taker ==> *final(target) == node_damaged(*old(target), damage) && ev@
            == node_damage_effects(*old(target), damage),
        final(target).wf(),
{
    if !target.damage_taker {
        return Vec::new();
    }
    if let Some(ev) = <Player as DamageTaker>::try_take_damage(target, damage) {
        return ev;
    }
    if let Some(ev) = <EnemyTank as DamageTaker>::try_take_damage(target, damage) {
        return ev;
    }
    if let Some(ev) = <GunTurret as DamageTaker>::try_take_damage(target, damage) {
        return ev;
    }
    proof {
        assert(false);
    }
    Vec::new()
}

/// Route damage to one node of the scene: exactly the vehicle at
/// `target` is touched, every other node keeps its state.
pub fn apply_damage(nodes: &mut Vec<SceneNode>, target: usize, amount: u8) -> (ev: Vec<Effect>)
    requires
        target < old(nodes).len(),
        old(nodes)@[target as int].wf(),
        old(nodes)@[target as int].damage_taker ==> !(old(nodes)@[target as int].class
            is Other),
    ensures
        final(nodes)@.len() == old(nodes)@.len(),
        forall|j: int|
            0 <= j < old(nodes)@.len() && j != target ==> final(nodes)@[j] == old(nodes)@[j],
        old(nodes)@[target as int].damage_taker ==> final(nodes)@[target as int] == node_damaged(
            old(nodes)@[target as int],
            amount,
        ) && ev@ == node_damage_effects(old(nodes)@[target as int], amount),
        !old(nodes)@[target as int].damage_taker ==> final(nodes)@[target as int] == old(
            nodes,
        )@[target as int] && ev@ == Seq::<Effect>::empty(),
{
    let mut node = nodes[target];
    let ev = take_damage(&mut node, amount);
    nodes.set(target, node);
    ev
}

/// Milliseconds covered by a run of timer ticks.
pub open spec fn total_ms(deltas: Seq<i64>) -> int
    decreases deltas.len(),
{
    if deltas.len() == 0 {
        0
    } else {
        deltas[0] + total_ms(deltas.drop_first())
    }
}

/// State of the gun-cooldown timer after a run of ticks.
pub open spec fn ticked_all(p: TankProperties, deltas: Seq<i64>) -> TankProperties
    decreases deltas.len(),
{
    if deltas.len() == 0 {
        p
    } else {
        ticked_all(ticked(p, deltas[0] as int), deltas.drop_first())
    }
}

/// A locked gun stays locked through any run of ticks that covers less
/// time than is left on its cooldown, and the remaining time falls by
/// exactly the time covered.
pub proof fn lemma_cooldown_shields(p: TankProperties, deltas: Seq<i64>)
    requires
        !p.can_shoot,
        0 <= p.cooldown_left,
        forall|i: int| 0 <= i < deltas.len() ==> deltas[i] >= 0,
        total_ms(deltas) < p.cooldown_left,
    ensures
        !ticked_all(p, deltas).can_shoot,
        ticked_all(p, deltas).cooldown_left == p.cooldown_left - total_ms(deltas),
    decreases deltas.len(),
{
    if deltas.len() > 0 {
        let first = deltas[0] as int;
        let rest = deltas.drop_first();
        assert(total_ms(rest) >= 0) by {
            lemma_total_ms_nonneg(rest);
        }
        assert(first < p.cooldown_left);
        lemma_cooldown_shields(ticked(p, first), rest);
    }
}

/// A run of non-negative ticks covers a non-negative time.
pub proof fn lemma_total_ms_nonneg(deltas: Seq<i64>)
    requires
        forall|i: int| 0 <= i < deltas.len() ==> deltas[i] >= 0,
    ensures
        total_ms(deltas) >= 0,
    decreases deltas.len(),
{
    if deltas.len() > 0 {
        lemma_total_ms_nonneg(deltas.drop_first());
    }
}

/// A free gun is untouched by its timer: any run of ticks leaves it free.
pub proof fn lemma_free_gun_stays_free(p: TankProperties, deltas: Seq<i64>)
    requires
        p.can_shoot,
    ensures
        ticked_all(p, deltas) == p,
    decreases deltas.len(),
{
    if deltas.len() > 0 {
        lemma_free_gun_stays_free(p, deltas.drop_first());
    }
}

/// A locked gun comes free through any non-empty run of non-negative
/// ticks that covers at least the time left on its cooldown, and stays
/// free.
pub proof fn lemma_cooldown_elapses(p: TankProperties, deltas: Seq<i64>)
    requires
        !p.can_shoot,
        0 <= p.cooldown_left,
        deltas.len() > 0,
        forall|i: int| 0 <= i < deltas.len() ==> deltas[i] >= 0,
        total_ms(deltas) >= p.cooldown_left,
    ensures
        ticked_all(p, deltas).can_shoot,
        ticked_all(p, deltas).cooldown_left == 0,
    decreases deltas.len(),
{
    if deltas.len() == 0 {
    } else {
        let first = deltas[0] as int;
        let rest = deltas.drop_first();
        let p1 = ticked(p, first);
        if first >= p.cooldown_left {
            lemma_free_gun_stays_free(p1, rest);
        } else {
            assert(total_ms(rest) == total_ms(deltas) - first);
            assert(rest.len() > 0) by {
                if rest.len() == 0 {
                    assert(total_ms(rest) == 0);
                }
            }
            lemma_cooldown_elapses(p1, rest);
        }
    }
}

/// After a successful shot the gun stays locked until a full cooldown of
/// `gun_cooldown` milliseconds has elapsed: no shorter run of timer ticks
/// frees it.
pub proof fn lemma_shot_locks_gun(p: TankProperties, deltas: Seq<i64>)
    requires
        p.wf(),
        p.can_shoot,
        forall|i: int| 0 <= i < deltas.len() ==> deltas[i] >= 0,
        total_ms(deltas) < p.gun_cooldown,
    ensures
        !ticked_all(shot(p), deltas).can_shoot,
        ticked_all(shot(p), deltas).cooldown_left == p.gun_cooldown - total_ms(deltas),
{
    lemma_cooldown_shields(shot(p), deltas);
}

/// Health never rises under the combat transitions: this subsystem never
/// heals.
pub proof fn lemma_health_never_increases(p: TankProperties, amount: u8, delta: int)
    ensures
        damaged(p, amount).health <= p.health,
        exploded(p).health == p.health,
        shot(p).health == p.health,
        ticked(p, delta).health == p.health,
{
}

/// A destroyed vehicle stays destroyed: no combat transition raises
/// `alive` again.
pub proof fn lemma_alive_one_way(p: TankProperties, amount: u8, delta: int)
    requires
        !p.alive,
    ensures
        !damaged(p, amount).alive,
        !exploded(p).alive,
        !shot(p).alive,
        !ticked(p, delta).alive,
{
}

/// Exploding is idempotent: a second explosion changes nothing and asks
/// the engine for nothing — the destruction animation plays once.
pub proof fn lemma_explode_idempotent(p: TankProperties)
    ensures
        exploded(exploded(p)) == exploded(p),
        explode_effects(exploded(p)) == Seq::<Effect>::empty(),
{
}

} // verus!
