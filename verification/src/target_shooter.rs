//! The enemy aiming and fire-decision policy.
//!
//! Each tick with a tracked target the turret direction is interpolated a
//! bounded step toward the target, and the gun fires when the aim error is
//! already small: when the dot product of the unit target direction and
//! the unit current direction exceeds nine tenths (an error under about
//! twenty-six degrees).

use crate::effects::Effect;
use crate::geom::{dot, dot_spec, lerp_milli, lerp_spec, normalize_milli, normalize_spec, Vec2};
use crate::tank::{shoot_effects, shot, BasicTank, TankProperties};
use vstd::prelude::*;

verus! {

/// The fire threshold: nine tenths, over milli-unit direction vectors.
pub const AIM_DOT_THRESHOLD: i64 = 900_000;

/// Largest position magnitude, in milli-units, the aiming policy accepts,
/// so that position differences stay in range.
pub const AIM_COORD_LIMIT: i64 = 500_000_000;

/// The unit direction from the shooter toward its target.
pub open spec fn aim_target_dir(own_pos: Vec2, target_pos: Vec2) -> Vec2 {
    normalize_spec(
        Vec2 { x: (target_pos.x - own_pos.x) as i64, y: (target_pos.y - own_pos.y) as i64 },
    )
}

/// The gun fires this tick: the aim error is already below the threshold,
/// judged on the direction the turret had when the tick began.
pub open spec fn aim_locked(own_pos: Vec2, target_pos: Vec2, current_dir: Vec2) -> bool {
    dot_spec(aim_target_dir(own_pos, target_pos), current_dir) > AIM_DOT_THRESHOLD
}

/// The combat state after the fire decision: a shot when the aim was
/// locked, untouched otherwise.
pub open spec fn shot_if_locked(p: TankProperties, locked: bool) -> TankProperties {
    if locked {
        shot(p)
    } else {
        p
    }
}

/// The turret direction after one tick: interpolated `step` thousandths
/// toward the target and rescaled to unit length; an interpolant that
/// collapses to zero (directly opposed directions) leaves the turret as
/// it was.
pub open spec fn turret_turned(
    own_pos: Vec2,
    target_pos: Vec2,
    current_dir: Vec2,
    step: int,
) -> Vec2 {
    let d = aim_target_dir(own_pos, target_pos);
    let v = lerp_spec(current_dir, d, step);
    if v == (Vec2 { x: 0, y: 0 }) {
        current_dir
    } else {
        normalize_spec(v)
    }
}

/// A vehicle that tracks a target and aims its turret at it: the enemy
/// engagement policy, layered on the shared combat controller.
pub trait TargetShooter: BasicTank {
    /// The turret's current direction, as a milli-unit vector.
    spec fn turret_dir_spec(&self) -> Vec2;

    /// The vehicle with its turret direction replaced and all its other
    /// fields kept.
    spec fn with_turret_dir(self, d: Vec2) -> Self;

    /// One engagement tick: turn the turret a bounded step toward the
    /// target and fire when the aim error was already below the
    /// threshold.  The shot announcement carries the turret direction
    /// the turret was just turned to.
    fn engage_target(
        &mut self,
        own_pos: Vec2,
        target_pos: Vec2,
        muzzle_pos: Vec2,
        step_milli: i64,
    ) -> (ev: Vec<Effect>)
        requires
            old(self).props_spec().wf(),
            old(self).turret_dir_spec().in_range(1000),
            own_pos.in_range(AIM_COORD_LIMIT as int),
            target_pos.in_range(AIM_COORD_LIMIT as int),
            own_pos != target_pos,
            0 <= step_milli <= 1000,
        ensures
            ({
                let nd = turret_turned(
                    own_pos,
                    target_pos,
                    old(self).turret_dir_spec(),
                    step_milli as int,
                );
                let locked = aim_locked(own_pos, target_pos, old(self).turret_dir_spec());
                &&& *final(self) == old(self).with_turret_dir(nd).with_props(
                    if locked {
                        shot(old(self).props_spec())
                    } else {
                        old(self).props_spec()
                    },
                )
                &&& ev@ == (if locked {
                    shoot_effects(old(self).props_spec(), muzzle_pos, nd)
                } else {
                    Seq::<Effect>::empty()
                })
                &&& final(self).turret_dir_spec().in_range(1000)
            }),
    ;
}

} // verus!
