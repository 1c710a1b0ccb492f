//! The projectile and its lifecycle.
//!
//! A bullet is spawned by a shot, flies in a straight line, and explodes
//! exactly once: on its first collision or when its lifetime elapses,
//! whichever comes first.  On a collision it routes its damage to the
//! node it hit; on the timeout path no damage is dealt.  When its impact
//! animation finishes the engine removes it.
//!
//! `process` advances one frame: straight-line motion together with the
//! countdown of the lifetime timer the start pose armed.

use crate::effects::{Anim, Effect};
use crate::geom::{div_trunc, div_trunc_spec, Vec2};
use crate::tank::{node_damage_effects, node_damaged, take_damage, SceneNode, MAX_TICK_MS};
use vstd::prelude::*;

verus! {

/// Largest projectile coordinate magnitude, in milli-units, that the
/// flight tick accepts.
pub const BULLET_POS_LIMIT: i64 = 1_000_000_000_000_000;

/// Longest accepted lifetime, in milliseconds.
pub const MAX_LIFETIME_MS: i64 = 1_000_000_000;

/// A projectile in flight.
#[derive(Clone, Copy, PartialEq, Eq, Structural, Debug)]
pub struct Bullet {
    /// Flight speed, in game units per second.
    pub speed: i64,
    /// Damage dealt to the vehicle it hits.
    pub damage: u8,
    /// Flight time before it explodes on its own, in milliseconds.
    pub lifetime: i64,
    /// Current velocity, in milli-units per millisecond; zero once
    /// exploding.
    pub velocity: Vec2,
    /// The bullet has exploded; a one-way transition.
    pub exploding: bool,
    /// Current position, in milli-units.
    pub position: Vec2,
    /// Milliseconds of flight left before the timeout path explodes it.
    pub time_left: i64,
}

impl Bullet {
    /// Configuration and flight state are consistent.
    pub open spec fn wf(self) -> bool {
        &&& 0 <= self.speed <= 1_000_000
        &&& 0 <= self.lifetime <= MAX_LIFETIME_MS
        &&& 0 <= self.time_left <= self.lifetime
        &&& self.velocity.in_range(1_000_000)
        &&& (self.exploding ==> self.velocity == (Vec2 { x: 0, y: 0 }))
    }

    /// The state of a projectile as constructed, before `start` arms it.
    pub open spec fn initial() -> Bullet {
        Bullet {
            speed: 750,
            damage: 10,
            lifetime: 1000,
            velocity: Vec2 { x: 0, y: 0 },
            exploding: false,
            position: Vec2 { x: 0, y: 0 },
            time_left: 0,
        }
    }

    /// A projectile as constructed: default speed, damage and lifetime,
    /// at rest until `start` arms it.
    pub fn new() -> (r: Bullet)
        ensures
            r == Bullet::initial(),
            r.wf(),
    {
        Bullet {
            speed: 750,
            damage: 10,
            lifetime: 1000,
            velocity: Vec2 { x: 0, y: 0 },
            exploding: false,
            position: Vec2 { x: 0, y: 0 },
            time_left: 0,
        }
    }
}

/// The bullet armed at `position` heading along `direction`: velocity is
/// the direction scaled by the flight speed, and the lifetime countdown
/// starts.
pub open spec fn bullet_started(b: Bullet, position: Vec2, direction: Vec2) -> Bullet {
    Bullet {
        position,
        velocity: Vec2 {
            x: div_trunc_spec(direction.x * b.speed, 1000) as i64,
            y: div_trunc_spec(direction.y * b.speed, 1000) as i64,
        },
        time_left: b.lifetime,
        ..b
    }
}

/// The bullet after its explosion: stopped and marked, once; a bullet
/// already exploding is untouched.
pub open spec fn bullet_exploded(b: Bullet) -> Bullet {
    if b.exploding {
        b
    } else {
        Bullet { exploding: true, velocity: Vec2 { x: 0, y: 0 }, ..b }
    }
}

/// Engine actions of the explosion; none when it already happened.
pub open spec fn bullet_explode_effects(b: Bullet) -> Seq<Effect> {
    if b.exploding {
        Seq::empty()
    } else {
        seq![
            Effect::HideSprite,
            Effect::ShowExplosion,
            Effect::PlayAnimation { anim: Anim::Smoke },
        ]
    }
}

/// The bullet displaced by one tick of straight-line motion.
pub open spec fn bullet_moved(b: Bullet, delta: int) -> Bullet {
    Bullet {
        position: Vec2 {
            x: (b.position.x + b.velocity.x * delta) as i64,
            y: (b.position.y + b.velocity.y * delta) as i64,
        },
        ..b
    }
}

/// The bullet after one frame: straight-line motion, then the lifetime
/// countdown, which explodes it by the timeout path exactly when it
/// elapses.
pub open spec fn bullet_ticked(b: Bullet, delta: int) -> Bullet {
    let m = bullet_moved(b, delta);
    if b.exploding {
        m
    } else if delta >= b.time_left {
        bullet_exploded(Bullet { time_left: 0, ..m })
    } else {
        Bullet { time_left: (b.time_left - delta) as i64, ..m }
    }
}

/// Engine actions of one frame: those of the explosion, on the tick the
/// lifetime elapses.
pub open spec fn bullet_tick_effects(b: Bullet, delta: int) -> Seq<Effect> {
    if !b.exploding && delta >= b.time_left {
        bullet_explode_effects(b)
    } else {
        Seq::empty()
    }
}

/// Engine actions of a collision: the explosion, and the routed damage
/// when the struck node is tagged; a bullet already exploding asks for
/// nothing.
pub open spec fn bullet_hit_effects(b: Bullet, n: SceneNode) -> Seq<Effect> {
    if b.exploding {
        Seq::empty()
    } else {
        bullet_explode_effects(b) + (if n.damage_taker {
            node_damage_effects(n, b.damage)
        } else {
            Seq::empty()
        })
    }
}

impl Bullet {
    /// Arm the bullet: set its pose, derive its velocity from the aim
    /// direction and its speed, and start the lifetime countdown.  The
    /// engine layer also turns the sprite along `direction`.
    pub fn start(&mut self, position: Vec2, direction: Vec2)
        requires
            old(self).wf(),
            !old(self).exploding,
            position.in_range(BULLET_POS_LIMIT as int),
            direction.in_range(1000),
        ensures
            *final(self) == bullet_started(*old(self), position, direction),
            final(self).wf(),
    {
        self.position = position;
        proof {
            let s = old(self).speed;
            assert(-1_000_000_000 <= direction.x * s <= 1_000_000_000 && -1_000_000_000
                <= direction.y * s <= 1_000_000_000) by (nonlinear_arith)
                requires
                    0 <= s <= 1_000_000,
                    direction.in_range(1000),
            ;
            crate::geom::lemma_div_trunc_bound(direction.x * s, 1000, 1_000_000);
            crate::geom::lemma_div_trunc_bound(direction.y * s, 1000, 1_000_000);
        }
        self.velocity = Vec2 {
            x: div_trunc(direction.x * self.speed, 1000),
            y: div_trunc(direction.y * self.speed, 1000),
        };
        self.time_left = self.lifetime;
    }

    /// Explode, once: stop, hide the sprite, play the impact animation.
    /// Reports whether this call was the one that exploded the bullet;
    /// a second call changes nothing and asks the engine for nothing.
    pub fn explode(&mut self) -> (r: (bool, Vec<Effect>))
        ensures
            *final(self) == bullet_exploded(*old(self)),
            r.0 == !old(self).exploding,
            r.1@ == bullet_explode_effects(*old(self)),
            old(self).wf() ==> final(self).wf(),
    {
        if self.exploding {
            return (false, Vec::new());
        }
        self.exploding = true;
        self.velocity = Vec2 { x: 0, y: 0 };
        let mut ev: Vec<Effect> = Vec::new();
        ev.push(Effect::HideSprite);
        ev.push(Effect::ShowExplosion);
        ev.push(Effect::PlayAnimation { anim: Anim::Smoke });
        proof {
            assert(ev@ =~= bullet_explode_effects(*old(self)));
        }
        (true, ev)
    }

    /// One frame of flight: move along the velocity for `delta_ms`, then
    /// run the lifetime countdown; the bullet explodes by the timeout
    /// path exactly on the tick the countdown elapses.
    pub fn process(&mut self, delta_ms: i64) -> (ev: Vec<Effect>)
        requires
            old(self).wf(),
            0 <= delta_ms <= MAX_TICK_MS,
            old(self).position.in_range(BULLET_POS_LIMIT as int),
        ensures
            *final(self) == bullet_ticked(*old(self), delta_ms as int),
            ev@ == bullet_tick_effects(*old(self), delta_ms as int),
            final(self).wf(),
            final(self).position.in_range(BULLET_POS_LIMIT as int + 100_000_000_000),
    {
        proof {
            let v = old(self).velocity;
            assert(-100_000_000_000 <= v.x * delta_ms <= 100_000_000_000 && -100_000_000_000
                <= v.y * delta_ms <= 100_000_000_000) by (nonlinear_arith)
                requires
                    v.in_range(1_000_000),
                    0 <= delta_ms <= 100_000,
            ;
        }
        self.position = Vec2 {
            x: self.position.x + self.velocity.x * delta_ms,
            y: self.position.y + self.velocity.y * delta_ms,
        };
        if self.exploding {
            Vec::new()
        } else if delta_ms >= self.time_left {
            self.time_left = 0;
            let (_, ev) = self.explode();
            ev
        } else {
            self.time_left = self.time_left - delta_ms;
            Vec::new()
        }
    }

    /// The bullet struck a body: explode, and when this call was the one
    /// that exploded it, route the damage to whatever vehicle owns the
    /// struck node.
    pub fn on_body_entered(&mut self, body: &mut SceneNode) -> (ev: Vec<Effect>)
        requires
            old(self).wf(),
            old(body).wf(),
            old(body).damage_taker ==> !(old(body).class is Other),
        ensures
            *final(self) == bullet_exploded(*old(self)),
            old(self).exploding ==> *final(body) == *old(body),
            !old(self).exploding && old(body).damage_taker ==> *final(body) == node_damaged(
                *old(body),
                old(self).damage,
            ),
            !old(self).exploding && !old(body).damage_taker ==> *final(body) == *old(body),
            ev@ == bullet_hit_effects(*old(self), *old(body)),
            final(self).wf(),
            final(body).wf(),
    {
        let (hit, mut ev) = self.explode();
        if hit {
            let mut routed = take_damage(body, self.damage);
            ev.append(&mut routed);
        }
        proof {
            assert(ev@ =~= bullet_hit_effects(*old(self), *old(body)));
        }
        ev
    }

    /// The lifetime timer elapsed without a collision: the timeout path
    /// of the explosion; no damage is dealt.
    pub fn on_lifetime_timeout(&mut self) -> (ev: Vec<Effect>)
        requires
            old(self).wf(),
        ensures
            *final(self) == bullet_exploded(*old(self)),
            ev@ == bullet_explode_effects(*old(self)),
            final(self).wf(),
    {
        let (_, ev) = self.explode();
        ev
    }

    /// The impact animation finished: ask the engine to remove the node.
    pub fn on_explosion_animation_finished(&self) -> (ev: Vec<Effect>)
        ensures
            ev@ == seq![Effect::FreeNode],
    {
        let mut ev: Vec<Effect> = Vec::new();
        ev.push(Effect::FreeNode);
        proof {
            assert(ev@ =~= seq![Effect::FreeNode]);
        }
        ev
    }
}

/// The bullet after a run of frames.
pub open spec fn bullet_ticked_all(b: Bullet, deltas: Seq<i64>) -> Bullet
    decreases deltas.len(),
{
    if deltas.len() == 0 {
        b
    } else {
        bullet_ticked_all(bullet_ticked(b, deltas[0] as int), deltas.drop_first())
    }
}

/// Until its lifetime elapses an unexploded bullet flies exact
/// straight-line motion: over any run of frames covering less time than
/// remains, its position advances by its velocity times the time covered,
/// nothing else about it changes, and it does not explode — neither by
/// the timeout path nor by any other.
pub proof fn lemma_flight_is_linear(b: Bullet, deltas: Seq<i64>, pos_limit: int)
    requires
        b.wf(),
        !b.exploding,
        forall|i: int| 0 <= i < deltas.len() ==> 0 <= #[trigger] deltas[i],
        crate::tank::total_ms(deltas) < b.time_left,
        b.position.in_range(pos_limit),
        pos_limit >= 0,
        pos_limit + 1_000_000 * crate::tank::total_ms(deltas) <= i64::MAX,
    ensures
        ({
            let r = bullet_ticked_all(b, deltas);
            let elapsed = crate::tank::total_ms(deltas);
            &&& !r.exploding
            &&& r.position.x == b.position.x + b.velocity.x * elapsed
            &&& r.position.y == b.position.y + b.velocity.y * elapsed
            &&& r.time_left == b.time_left - elapsed
            &&& r == (Bullet {
                position: r.position,
                time_left: r.time_left,
                ..b
            })
        }),
    decreases deltas.len(),
{
    let elapsed = crate::tank::total_ms(deltas);
    if deltas.len() == 0 {
        assert(b.position.x + b.velocity.x * 0 == b.position.x) by (nonlinear_arith);
        assert(b.position.y + b.velocity.y * 0 == b.position.y) by (nonlinear_arith);
    } else {
        let d0 = deltas[0] as int;
        let rest = deltas.drop_first();
        crate::tank::lemma_total_ms_nonneg(rest);
        assert(0 <= d0 <= elapsed);
        let b1 = bullet_ticked(b, d0);
        assert(-(1_000_000 * d0) <= b.velocity.x * d0 <= 1_000_000 * d0 && -(1_000_000 * d0)
            <= b.velocity.y * d0 <= 1_000_000 * d0) by (nonlinear_arith)
            requires
                b.velocity.in_range(1_000_000),
                d0 >= 0,
        ;
        assert(1_000_000 * d0 + 1_000_000 * crate::tank::total_ms(rest) == 1_000_000 * elapsed)
            by (nonlinear_arith)
            requires
                elapsed == d0 + crate::tank::total_ms(rest),
        ;
        lemma_flight_is_linear(b1, rest, pos_limit + 1_000_000 * d0);
        let r = bullet_ticked_all(b, deltas);
        assert(b1.velocity.x * crate::tank::total_ms(rest) + b.velocity.x * d0 == b.velocity.x
            * elapsed && b1.velocity.y * crate::tank::total_ms(rest) + b.velocity.y * d0
            == b.velocity.y * elapsed) by (nonlinear_arith)
            requires
                b1.velocity == b.velocity,
                elapsed == d0 + crate::tank::total_ms(rest),
        ;
    }
}

/// Exploding a bullet is idempotent: a second explosion changes nothing
/// and asks the engine for nothing — the impact animation plays once.
pub proof fn lemma_bullet_explode_idempotent(b: Bullet)
    ensures
        bullet_exploded(bullet_exploded(b)) == bullet_exploded(b),
        bullet_explode_effects(bullet_exploded(b)) == Seq::<Effect>::empty(),
{
}

} // verus!
