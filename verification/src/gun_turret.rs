//! A stationary gun emplacement.
//!
//! It has no drive of its own: only the shared combat state, so it spawns,
//! takes damage, explodes and dies exactly as the mobile vehicles do, and
//! the damage router probes it as one of the known vehicle types.

use crate::effects::Effect;
use crate::tank::{BasicTank, DamageTaker, NodeClass, SceneNode, TankProperties};
use vstd::prelude::*;

verus! {

/// The stationary emplacement: nothing beyond the shared combat state.
#[derive(Clone, Copy, PartialEq, Eq, Structural, Debug)]
pub struct GunTurret {
    pub properties: TankProperties,
}

impl GunTurret {
    /// A freshly spawned emplacement.
    pub fn new() -> (r: GunTurret)
        ensures
            r == (GunTurret { properties: TankProperties::initial() }),
            r.properties.wf(),
    {
        GunTurret { properties: TankProperties::new() }
    }

    /// Restore health and configure the gun timer: the ready transition
    /// of the shared controller.
    pub fn ready(&mut self) -> (ev: Vec<Effect>)
        requires
            old(self).properties.wf(),
        ensures
            final(self).properties == crate::tank::readied(old(self).properties),
            ev@ == crate::tank::ready_effects(old(self).properties),
            final(self).properties.wf(),
    {
        self.properties.ready()
    }
}

impl DamageTaker for GunTurret {
    open spec fn is_instance(node: SceneNode) -> bool {
        node.class is GunTurret
    }

    fn try_take_damage(node: &mut SceneNode, amount: u8) -> (r: Option<Vec<Effect>>) {
        match node.class {
            NodeClass::GunTurret(mut g) => {
                let ev = g.take_damage(amount);
                node.class = NodeClass::GunTurret(g);
                Some(ev)
            },
            _ => None,
        }
    }
}

impl BasicTank for GunTurret {
    open spec fn props_spec(&self) -> TankProperties {
        self.properties
    }

    open spec fn with_props(self, p: TankProperties) -> GunTurret {
        GunTurret { properties: p }
    }

    fn props(&self) -> (r: &TankProperties) {
        &self.properties
    }

    fn take_damage(&mut self, amount: u8) -> (ev: Vec<Effect>) {
        self.properties.take_damage(amount)
    }
}

} // verus!
