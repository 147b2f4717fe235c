//! What a level holds: bounds, declared mechanics, walls, food and special objects.

use vstd::prelude::*;
use crate::grid::{GridBounds, GridPosition};
use crate::food::Food;
use crate::creature::MAX_PERCENT;

verus! {

#[derive(Clone, Copy, Debug, PartialEq, Eq, Structural)]
pub enum WallType {
    Boundary,
    Obstacle,
    Breakable,
    Moving,
}

#[derive(Clone, Copy, Debug, PartialEq, Eq, Structural)]
pub struct Wall {
    pub position: GridPosition,
    pub kind: WallType,
    pub health: u32,
}

/// Optional behaviours a level may declare. A mechanic that is not declared
/// is inactive, whatever objects the level holds.
#[derive(Clone, Copy, Debug, PartialEq, Eq, Structural)]
pub enum SpecialMechanic {
    /// Teleporter pairs; a level with them also wraps at its edges.
    Teleporters,
    SpeedZones,
    MovingFood,
    Invincibility,
    WallBreaking,
    MultipleFoods,
    Gravity,
    Trail,
}

/// Two linked endpoints: entering either relocates to the other.
#[derive(Clone, Copy, Debug, PartialEq, Eq, Structural)]
pub struct TeleporterLink {
    pub a: GridPosition,
    pub b: GridPosition,
}

/// A rectangle of cells, corners included, that multiplies speed while the
/// head is inside it.
#[derive(Clone, Copy, Debug, PartialEq, Eq, Structural)]
pub struct SpeedZone {
    pub min: GridPosition,
    pub max: GridPosition,
    pub percent: u32,
}

impl SpeedZone {
    pub open spec fn contains_spec(self, p: GridPosition) -> bool {
        self.min.x <= p.x <= self.max.x && self.min.y <= p.y <= self.max.y
    }

    pub fn contains(&self, p: GridPosition) -> (r: bool)
        ensures
            r == self.contains_spec(p),
    {
        self.min.x <= p.x && p.x <= self.max.x && self.min.y <= p.y && p.y <= self.max.y
    }
}

/// The state of the level being played.
#[derive(Clone, Debug)]
pub struct Arena {
    pub bounds: GridBounds,
    /// Level number, from 1.
    pub level: u32,
    pub mechanics: Vec<SpecialMechanic>,
    pub foods: Vec<Food>,
    pub walls: Vec<Wall>,
    pub teleporters: Vec<TeleporterLink>,
    pub speed_zones: Vec<SpeedZone>,
    /// Invincibility pickups.
    pub pickups: Vec<GridPosition>,
}

impl Arena {
    pub open spec fn declares(&self, m: SpecialMechanic) -> bool {
        self.mechanics@.contains(m)
    }

    pub open spec fn wraps(&self) -> bool {
        self.declares(SpecialMechanic::Teleporters)
    }

    pub open spec fn wf(&self) -> bool {
        &&& self.bounds.wf()
        &&& forall|i: int|
            0 <= i < self.teleporters@.len() ==> {
                &&& #[trigger] self.bounds.contains_spec(
                    self.teleporters@[i].a.x as int,
                    self.teleporters@[i].a.y as int,
                )
                &&& self.bounds.contains_spec(
                    self.teleporters@[i].b.x as int,
                    self.teleporters@[i].b.y as int,
                )
            }
        &&& forall|i: int|
            0 <= i < self.speed_zones@.len() ==> #[trigger] self.speed_zones@[i].percent
                <= MAX_PERCENT
    }

    /// An empty level of the given size and number, with no mechanics.
    pub fn new(bounds: GridBounds, level: u32) -> (r: Arena)
        requires
            bounds.wf(),
        ensures
            r.wf(),
            r.bounds == bounds,
            r.level == level,
            r.mechanics@.len() == 0,
            r.foods@.len() == 0,
            r.walls@.len() == 0,
            r.teleporters@.len() == 0,
            r.speed_zones@.len() == 0,
            r.pickups@.len() == 0,
    {
        Arena {
            bounds,
            level,
            mechanics: Vec::new(),
            foods: Vec::new(),
            walls: Vec::new(),
            teleporters: Vec::new(),
            speed_zones: Vec::new(),
            pickups: Vec::new(),
        }
    }

    /// Whether the level declares `m`.
    pub fn has_mechanic(&self, m: SpecialMechanic) -> (r: bool)
        ensures
            r == self.declares(m),
    {
        let mut i: usize = 0;
        while i < self.mechanics.len()
            invariant
                i <= self.mechanics@.len(),
                forall|j: int| 0 <= j < i ==> self.mechanics@[j] != m,
            decreases self.mechanics@.len() - i,
        {
            if self.mechanics[i] == m {
                return true;
            }
            i = i + 1;
        }
        false
    }

    /// Whether out-of-bounds moves wrap onto the opposite edge.
    pub fn wraps_at_edges(&self) -> (r: bool)
        ensures
            r == self.wraps(),
    {
        self.has_mechanic(SpecialMechanic::Teleporters)
    }

    /// Multiplier of the first speed zone holding `p`, in percent; 100 where
    /// none does or the level declares no speed zones.
    pub fn zone_percent_at(&self, p: GridPosition) -> (r: u32)
        requires
            self.wf(),
        ensures
            r == zone_percent_spec(self.declares(SpecialMechanic::SpeedZones), self.speed_zones@, p),
            r <= MAX_PERCENT,
    {
        if !self.has_mechanic(SpecialMechanic::SpeedZones) {
            return 100;
        }
        let mut i: usize = 0;
        while i < self.speed_zones.len()
            invariant
                self.wf(),
                self.declares(SpecialMechanic::SpeedZones),
                i <= self.speed_zones@.len(),
                forall|j: int| 0 <= j < i ==> !(#[trigger] self.speed_zones@[j]).contains_spec(p),
            decreases self.speed_zones@.len() - i,
        {
            if self.speed_zones[i].contains(p) {
                proof {
                    lemma_zone_first(self.speed_zones@, p, i as int);
                }
                return self.speed_zones[i].percent;
            }
            i = i + 1;
        }
        proof {
            lemma_zone_none(self.speed_zones@, p);
        }
        100
    }
}

/// Multiplier of the first zone of `zones` holding `p`, or 100.
pub open spec fn first_zone_percent(zones: Seq<SpeedZone>, p: GridPosition) -> u32
    decreases zones.len(),
{
    if zones.len() == 0 {
        100
    } else if zones[0].contains_spec(p) {
        zones[0].percent
    } else {
        first_zone_percent(zones.drop_first(), p)
    }
}

pub open spec fn zone_percent_spec(declared: bool, zones: Seq<SpeedZone>, p: GridPosition) -> u32 {
    if declared { first_zone_percent(zones, p) } else { 100 }
}

proof fn lemma_zone_first(zones: Seq<SpeedZone>, p: GridPosition, i: int)
    requires
        0 <= i < zones.len(),
        zones[i].contains_spec(p),
        forall|j: int| 0 <= j < i ==> !(#[trigger] zones[j]).contains_spec(p),
    ensures
        first_zone_percent(zones, p) == zones[i].percent,
    decreases i,
{
    if i > 0 {
        assert(!zones[0].contains_spec(p));
        let rest = zones.drop_first();
        assert forall|j: int| 0 <= j < i - 1 implies !(#[trigger] rest[j]).contains_spec(p) by {
            assert(rest[j] == zones[j + 1]);
        }
        lemma_zone_first(rest, p, i - 1);
    }
}

proof fn lemma_zone_none(zones: Seq<SpeedZone>, p: GridPosition)
    requires
        forall|j: int| 0 <= j < zones.len() ==> !(#[trigger] zones[j]).contains_spec(p),
    ensures
        first_zone_percent(zones, p) == 100,
    decreases zones.len(),
{
    if zones.len() > 0 {
        let rest = zones.drop_first();
        assert forall|j: int| 0 <= j < rest.len() implies !(#[trigger] rest[j]).contains_spec(p) by {
            assert(rest[j] == zones[j + 1]);
        }
        lemma_zone_none(rest, p);
    }
}

} // verus!
