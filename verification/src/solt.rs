//! Planting slots: who stands where.

use vstd::prelude::*;
use crate::plant::PlantPosition;

verus! {

/// Handle of an entity.
pub type Entity = u64;

/// Terrain of a slot.
#[derive(Clone, Copy, Debug, PartialEq, Eq, Structural)]
pub enum SoltType {
    Dirt,
    River,
    Roof,
}

/// A planting slot: at most one occupant per role, its terrain, and what
/// overrides the terrain.
#[derive(Clone, Copy, Debug, PartialEq, Eq, Structural)]
pub struct PlantSolt {
    /// The main defender.
    pub primary: Option<Entity>,
    /// A defender that shields the others.
    pub protect: Option<Entity>,
    /// A pot or pad that the others stand on.
    pub pot: Option<Entity>,
    /// A short-lived helper.
    pub temp: Option<Entity>,
    pub solt_type: SoltType,
    /// A grave on the slot.
    pub grave: Option<Entity>,
    /// A crater on the slot.
    pub hole: Option<Entity>,
}

impl Default for SoltType {
    /// Soil.
    fn default() -> (r: SoltType)
        ensures
            r == SoltType::Dirt,
    {
        SoltType::Dirt
    }
}

impl Default for PlantSolt {
    /// An empty slot of soil.
    fn default() -> (r: PlantSolt)
        ensures
            r == PlantSolt::empty(SoltType::Dirt),
    {
        PlantSolt::new(SoltType::Dirt)
    }
}

impl PlantSolt {
    /// An empty slot of the given terrain.
    pub open spec fn empty(solt_type: SoltType) -> PlantSolt {
        PlantSolt {
            primary: None,
            protect: None,
            pot: None,
            temp: None,
            solt_type,
            grave: None,
            hole: None,
        }
    }

    /// An empty slot of the given terrain.
    pub fn new(solt_type: SoltType) -> (r: PlantSolt)
        ensures
            r == PlantSolt::empty(solt_type),
    {
        PlantSolt {
            primary: None,
            protect: None,
            pot: None,
            temp: None,
            solt_type,
            grave: None,
            hole: None,
        }
    }

    /// The occupants in the order in which invaders eat them.
    pub open spec fn spec_plants(&self) -> Seq<Option<Entity>> {
        seq![self.temp, self.protect, self.primary, self.pot]
    }

    /// The occupant of a role.
    pub open spec fn role(&self, position: PlantPosition) -> Option<Entity> {
        match position {
            PlantPosition::Primary => self.primary,
            PlantPosition::Protect => self.protect,
            PlantPosition::Pot => self.pot,
            PlantPosition::Temp => self.temp,
        }
    }

    /// The slot with `occupant` in a role.
    pub open spec fn with_role(&self, position: PlantPosition, occupant: Option<Entity>) -> PlantSolt {
        match position {
            PlantPosition::Primary => PlantSolt { primary: occupant, ..*self },
            PlantPosition::Protect => PlantSolt { protect: occupant, ..*self },
            PlantPosition::Pot => PlantSolt { pot: occupant, ..*self },
            PlantPosition::Temp => PlantSolt { temp: occupant, ..*self },
        }
    }

    /// `role` without `entity`.
    pub open spec fn vacated(role: Option<Entity>, entity: Entity) -> Option<Entity> {
        if role == Some(entity) {
            None
        } else {
            role
        }
    }

    /// The slot with every role that `entity` held left empty.
    pub open spec fn without(&self, entity: Entity) -> PlantSolt {
        PlantSolt {
            primary: Self::vacated(self.primary, entity),
            protect: Self::vacated(self.protect, entity),
            pot: Self::vacated(self.pot, entity),
            temp: Self::vacated(self.temp, entity),
            ..*self
        }
    }

    /// The first occupant in eating order.
    pub open spec fn first_plant(&self) -> Option<Entity> {
        if self.temp.is_some() {
            self.temp
        } else if self.protect.is_some() {
            self.protect
        } else if self.primary.is_some() {
            self.primary
        } else {
            self.pot
        }
    }

    /// The occupants in the order in which invaders eat them.
    pub fn plants(&self) -> (r: [Option<Entity>; 4])
        ensures
            r@ == self.spec_plants(),
    {
        [self.temp, self.protect, self.primary, self.pot]
    }

    /// The four roles in eating order, open to change.
    pub fn plants_mut(&mut self) -> (r: [&mut Option<Entity>; 4])
        ensures
            *r[0] == old(self).temp,
            *r[1] == old(self).protect,
            *r[2] == old(self).primary,
            *r[3] == old(self).pot,
            *final(self) == (PlantSolt {
                temp: *final(r[0]),
                protect: *final(r[1]),
                primary: *final(r[2]),
                pot: *final(r[3]),
                ..*old(self)
            }),
    {
        [&mut self.temp, &mut self.protect, &mut self.primary, &mut self.pot]
    }

    /// The occupant of a role.
    pub fn get(&self, position: PlantPosition) -> (r: Option<Entity>)
        ensures
            r == self.role(position),
    {
        match position {
            PlantPosition::Primary => self.primary,
            PlantPosition::Protect => self.protect,
            PlantPosition::Pot => self.pot,
            PlantPosition::Temp => self.temp,
        }
    }

    /// Puts `occupant` into a role.
    pub fn set(&mut self, position: PlantPosition, occupant: Option<Entity>)
        ensures
            *final(self) == old(self).with_role(position, occupant),
    {
        match position {
            PlantPosition::Primary => { self.primary = occupant; },
            PlantPosition::Protect => { self.protect = occupant; },
            PlantPosition::Pot => { self.pot = occupant; },
            PlantPosition::Temp => { self.temp = occupant; },
        }
    }

    /// The occupant that an invader at this slot eats first.
    pub fn eaten_first(&self) -> (r: Option<Entity>)
        ensures
            r == self.first_plant(),
    {
        if self.temp.is_some() {
            self.temp
        } else if self.protect.is_some() {
            self.protect
        } else if self.primary.is_some() {
            self.primary
        } else {
            self.pot
        }
    }

    /// Empties every role that `entity` holds; the other roles stay.
    pub fn remove(&mut self, entity: Entity)
        ensures
            *final(self) == old(self).without(entity),
    {
        if self.temp == Some(entity) {
            self.temp = None;
        }
        if self.protect == Some(entity) {
            self.protect = None;
        }
        if self.primary == Some(entity) {
            self.primary = None;
        }
        if self.pot == Some(entity) {
            self.pot = None;
        }
    }
}

} // verus!
