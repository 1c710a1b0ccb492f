//! Requests from the combat core to the engine layer.
//!
//! The core never touches the scene graph itself.  Every transition returns
//! the list of engine actions it asks for — animation playback, timer
//! control, signal emission, node visibility, deferred physics changes —
//! in the order they are to be performed.  The engine layer executes them
//! and carries no game logic of its own.

use crate::geom::Vec2;
use vstd::prelude::*;

verus! {

/// An animation the core asks the engine to play.
#[derive(Clone, Copy, PartialEq, Eq, Structural, Debug)]
pub enum Anim {
    /// The turret's muzzle flash, on a successful shot.
    MuzzleFlash,
    /// A vehicle's destruction animation.
    Fire,
    /// A projectile's impact animation.
    Smoke,
}

/// One engine action requested by a transition of the combat core.
#[derive(Clone, Copy, PartialEq, Eq, Structural, Debug)]
pub enum Effect {
    /// Play the named animation on the owner's animation player.
    PlayAnimation { anim: Anim },
    /// Configure the gun-cooldown timer's duration, in milliseconds.
    SetGunTimerWait { wait_ms: i64 },
    /// Restart the gun-cooldown timer.
    StartGunTimer,
    /// Emit the "shoot" event: spawn a projectile at `position`, in
    /// milli-units, heading along the milli-unit direction `direction`.
    EmitShoot { position: Vec2, direction: Vec2 },
    /// Emit the "health changed" event; listeners display
    /// `100 * health / max_health` percent.
    EmitHealthChanged { health: u8, max_health: u8 },
    /// Emit the "dead" event.
    EmitDead,
    /// Disable the owner's collision shape after the current physics step.
    DisableCollisionDeferred,
    /// Hide the turret sprite.
    HideTurret,
    /// Hide the body sprite.
    HideBody,
    /// Hide the projectile sprite.
    HideSprite,
    /// Show the explosion sprite.
    ShowExplosion,
    /// Remove the owner from the scene at the end of the frame.
    FreeNode,
}

} // verus!
