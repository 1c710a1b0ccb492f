//! Combat core of a top-down tank game.
//!
//! The library models the behaviour of the game's vehicles and projectiles
//! over exact fixed-point quantities: distances in thousandths of a game
//! unit ("milli-units"), times in milliseconds, speeds in game units per
//! second (numerically equal to milli-units per millisecond), and turret
//! directions as milli-unit vectors.  The host engine layer converts these
//! to and from its own floating-point types and performs all rendering,
//! input polling, physics integration and scene-graph work; this crate
//! holds the decisions: the vehicle lifecycle state machine, health
//! accounting, gun cooldown, damage routing, enemy aiming, and the
//! projectile lifecycle.

pub mod bullet;
pub mod effects;
pub mod enemy_tank;
pub mod gun_turret;
pub mod geom;
pub mod player;
pub mod tank;
pub mod target_shooter;

pub use geom::Vec2;
