//! The collision resolver: after a committed move, checks food, special
//! objects, walls, the body and the boundary, in that order, and stops at the
//! first lethal outcome.

use vstd::prelude::*;
use crate::grid::GridPosition;
use crate::food::{Food, FoodType, food_score_spec};
use crate::level::{Arena, SpecialMechanic, TeleporterLink, Wall, WallType};
use crate::creature::{
    Snake,
    TimedEffect,
    INVINCIBILITY_MS,
    SPEED_BOOST_MS,
    SPEED_BOOST_PERCENT,
};

verus! {

/// Body segments with an index at most this are never hit by the head.
pub const SELF_COLLISION_GRACE: usize = 2;

/// Food was eaten.
#[derive(Clone, Copy, Debug, PartialEq, Eq, Structural)]
pub struct FoodHit {
    pub kind: FoodType,
    pub score: u64,
    pub position: GridPosition,
}

#[derive(Clone, Copy, Debug, PartialEq, Eq, Structural)]
pub enum SpecialKind {
    Teleporter,
    InvincibilityPickup,
}

/// A special object acted: a teleport landing at `position`, or a pickup
/// taken at `position`.
#[derive(Clone, Copy, Debug, PartialEq, Eq, Structural)]
pub struct SpecialHit {
    pub kind: SpecialKind,
    pub position: GridPosition,
}

/// The head met a wall; `broke` when the wall was destroyed.
#[derive(Clone, Copy, Debug, PartialEq, Eq, Structural)]
pub struct WallHit {
    pub kind: WallType,
    pub position: GridPosition,
    pub broke: bool,
}

#[derive(Clone, Copy, Debug, PartialEq, Eq, Structural)]
pub enum DeathCause {
    WallCollision,
    SelfCollision,
}

#[derive(Clone, Copy, Debug, PartialEq, Eq, Structural)]
pub struct Death {
    pub cause: DeathCause,
    pub position: GridPosition,
}

/// The outcomes of one resolution: at most one of each category.
#[derive(Clone, Copy, Debug, PartialEq, Eq, Structural)]
pub struct Collisions {
    pub food: Option<FoodHit>,
    pub special: Option<SpecialHit>,
    pub wall: Option<WallHit>,
    pub death: Option<Death>,
}

pub open spec fn food_cells(s: Seq<Food>) -> Seq<GridPosition> {
    s.map_values(|f: Food| f.position)
}

pub open spec fn wall_cells(s: Seq<Wall>) -> Seq<GridPosition> {
    s.map_values(|w: Wall| w.position)
}

/// `i` is the first index of `cells` holding `p`.
pub open spec fn is_first(cells: Seq<GridPosition>, p: GridPosition, i: int) -> bool {
    &&& 0 <= i < cells.len()
    &&& cells[i] == p
    &&& forall|j: int| 0 <= j < i ==> cells[j] != p
}

/// The first index of `cells` holding `p`, if any.
pub open spec fn first_index(cells: Seq<GridPosition>, p: GridPosition) -> Option<int> {
    if exists|i: int| is_first(cells, p, i) {
        Some(choose|i: int| is_first(cells, p, i))
    } else {
        None
    }
}

proof fn lemma_first_index_is(cells: Seq<GridPosition>, p: GridPosition, i: int)
    requires
        is_first(cells, p, i),
    ensures
        first_index(cells, p) == Some(i),
{
    let k = choose|k: int| is_first(cells, p, k);
    assert(is_first(cells, p, k));
    if k < i {
        assert(cells[k] != p);
    } else if i < k {
        assert(cells[i] != p);
    }
}

proof fn lemma_first_index_none(cells: Seq<GridPosition>, p: GridPosition)
    requires
        forall|j: int| 0 <= j < cells.len() ==> cells[j] != p,
    ensures
        first_index(cells, p) is None,
{
    if exists|i: int| is_first(cells, p, i) {
        let k = choose|k: int| is_first(cells, p, k);
        assert(cells[k] == p);
    }
}

/// Index of the first food at `p`.
pub fn find_food(foods: &Vec<Food>, p: GridPosition) -> (r: Option<usize>)
    ensures
        r matches Some(i) ==> first_index(food_cells(foods@), p) == Some(i as int),
        r is None ==> first_index(food_cells(foods@), p) is None,
{
    let ghost cells = food_cells(foods@);
    let mut i: usize = 0;
    while i < foods.len()
        invariant
            cells == food_cells(foods@),
            i <= foods@.len(),
            forall|j: int| 0 <= j < i ==> cells[j] != p,
        decreases foods@.len() - i,
    {
        assert(cells[i as int] == foods@[i as int].position);
        if foods[i].position == p {
            proof {
                lemma_first_index_is(cells, p, i as int);
            }
            return Some(i);
        }
        i = i + 1;
    }
    proof {
        lemma_first_index_none(cells, p);
    }
    None
}

/// Index of the first wall at `p`.
pub fn find_wall(walls: &Vec<Wall>, p: GridPosition) -> (r: Option<usize>)
    ensures
        r matches Some(i) ==> first_index(wall_cells(walls@), p) == Some(i as int),
        r is None ==> first_index(wall_cells(walls@), p) is None,
{
    let ghost cells = wall_cells(walls@);
    let mut i: usize = 0;
    while i < walls.len()
        invariant
            cells == wall_cells(walls@),
            i <= walls@.len(),
            forall|j: int| 0 <= j < i ==> cells[j] != p,
        decreases walls@.len() - i,
    {
        assert(cells[i as int] == walls@[i as int].position);
        if walls[i].position == p {
            proof {
                lemma_first_index_is(cells, p, i as int);
            }
            return Some(i);
        }
        i = i + 1;
    }
    proof {
        lemma_first_index_none(cells, p);
    }
    None
}

/// Index of the first cell of `cells` equal to `p`.
pub fn find_cell(cells: &Vec<GridPosition>, p: GridPosition) -> (r: Option<usize>)
    ensures
        r matches Some(i) ==> first_index(cells@, p) == Some(i as int),
        r is None ==> first_index(cells@, p) is None,
{
    let mut i: usize = 0;
    while i < cells.len()
        invariant
            i <= cells@.len(),
            forall|j: int| 0 <= j < i ==> cells@[j] != p,
        decreases cells@.len() - i,
    {
        if cells[i] == p {
            proof {
                lemma_first_index_is(cells@, p, i as int);
            }
            return Some(i);
        }
        i = i + 1;
    }
    proof {
        lemma_first_index_none(cells@, p);
    }
    None
}

pub open spec fn touches(l: TeleporterLink, p: GridPosition) -> bool {
    l.a == p || l.b == p
}

/// The endpoint of `l` that is not `p`.
pub open spec fn other_end(l: TeleporterLink, p: GridPosition) -> GridPosition {
    if l.a == p { l.b } else { l.a }
}

/// Where the first link with an endpoint at `p` leads, if any.
pub open spec fn teleport_target(links: Seq<TeleporterLink>, p: GridPosition) -> Option<GridPosition>
    decreases links.len(),
{
    if links.len() == 0 {
        None
    } else if touches(links[0], p) {
        Some(other_end(links[0], p))
    } else {
        teleport_target(links.drop_first(), p)
    }
}

proof fn lemma_teleport_first(links: Seq<TeleporterLink>, p: GridPosition, i: int)
    requires
        0 <= i <= links.len(),
        forall|j: int| 0 <= j < i ==> !touches(#[trigger] links[j], p),
    ensures
        teleport_target(links, p) == teleport_target(links.subrange(i, links.len() as int), p),
    decreases i,
{
    if i > 0 {
        let rest = links.drop_first();
        assert forall|j: int| 0 <= j < i - 1 implies !touches(#[trigger] rest[j], p) by {
            assert(rest[j] == links[j + 1]);
        }
        lemma_teleport_first(rest, p, i - 1);
        assert(rest.subrange(i - 1, rest.len() as int) =~= links.subrange(i, links.len() as int));
    } else {
        assert(links.subrange(0, links.len() as int) =~= links);
    }
}

/// A teleport lands on an endpoint of one of the links.
pub proof fn lemma_teleport_target_is_endpoint(links: Seq<TeleporterLink>, p: GridPosition)
    requires
        teleport_target(links, p) is Some,
    ensures
        exists|i: int|
            0 <= i < links.len() && (#[trigger] links[i].a == teleport_target(links, p).unwrap()
                || links[i].b == teleport_target(links, p).unwrap()),
    decreases links.len(),
{
    if touches(links[0], p) {
        assert(links[0].a == teleport_target(links, p).unwrap() || links[0].b == teleport_target(
            links,
            p,
        ).unwrap());
    } else {
        let rest = links.drop_first();
        lemma_teleport_target_is_endpoint(rest, p);
        let i = choose|i: int|
            0 <= i < rest.len() && (#[trigger] rest[i].a == teleport_target(rest, p).unwrap()
                || rest[i].b == teleport_target(rest, p).unwrap());
        assert(links[i + 1] == rest[i]);
    }
}

/// A teleport starts from an endpoint of one of the links.
pub proof fn lemma_teleport_source_is_endpoint(links: Seq<TeleporterLink>, p: GridPosition)
    requires
        teleport_target(links, p) is Some,
    ensures
        exists|i: int| 0 <= i < links.len() && touches(#[trigger] links[i], p),
    decreases links.len(),
{
    if !touches(links[0], p) {
        let rest = links.drop_first();
        lemma_teleport_source_is_endpoint(rest, p);
        let i = choose|i: int| 0 <= i < rest.len() && touches(#[trigger] rest[i], p);
        assert(links[i + 1] == rest[i]);
    }
}

/// Where a teleporter at `p` leads, if one of `links` has an endpoint there.
pub fn find_teleport(links: &Vec<TeleporterLink>, p: GridPosition) -> (r: Option<GridPosition>)
    ensures
        r == teleport_target(links@, p),
{
    let mut i: usize = 0;
    while i < links.len()
        invariant
            i <= links@.len(),
            forall|j: int| 0 <= j < i ==> !touches(#[trigger] links@[j], p),
        decreases links@.len() - i,
    {
        let l = links[i];
        if l.a == p || l.b == p {
            proof {
                lemma_teleport_first(links@, p, i as int);
                assert(links@.subrange(i as int, links@.len() as int)[0] == l);
            }
            return Some(if l.a == p { l.b } else { l.a });
        }
        i = i + 1;
    }
    proof {
        lemma_teleport_first(links@, p, i as int);
    }
    None
}

/// `p` is the cell of a body segment the head can hit: index above the grace window.
pub open spec fn hits_body(chain: Seq<GridPosition>, p: GridPosition) -> bool {
    exists|i: int| SELF_COLLISION_GRACE < i < chain.len() && chain[i] == p
}

/// Whether the head, at `p`, lies on a body segment past the grace window.
pub fn body_hit(segments: &Vec<GridPosition>, p: GridPosition) -> (r: bool)
    ensures
        r == hits_body(segments@, p),
{
    let mut i: usize = SELF_COLLISION_GRACE + 1;
    while i < segments.len()
        invariant
            SELF_COLLISION_GRACE < i,
            forall|j: int| SELF_COLLISION_GRACE < j < i && j < segments@.len() ==> segments@[j] != p,
        decreases segments@.len() - i,
    {
        if segments[i] == p {
            return true;
        }
        i = i + 1;
    }
    false
}

/// The creature's speed boost after eating `kind`.
pub open spec fn boost_after(kind: FoodType, before: Option<TimedEffect>) -> Option<TimedEffect> {
    if kind == FoodType::Speed {
        Some(TimedEffect { percent: SPEED_BOOST_PERCENT, remaining_ms: SPEED_BOOST_MS })
    } else {
        before
    }
}

/// The creature's invincibility after eating `kind`.
pub open spec fn invincibility_after(kind: FoodType, before: Option<u64>) -> Option<u64> {
    if kind == FoodType::Golden {
        Some(INVINCIBILITY_MS)
    } else {
        before
    }
}

/// Everything of a creature but its chain and effects stays.
pub open spec fn same_body(a: &Snake, b: &Snake) -> bool {
    &&& a.length == b.length
    &&& a.direction == b.direction
    &&& a.speed == b.speed
    &&& a.max_speed == b.max_speed
    &&& a.accumulator == b.accumulator
    &&& a.character_id == b.character_id
}

/// Everything of an arena but its food, walls and pickups stays.
pub open spec fn same_layout(a: &Arena, b: &Arena) -> bool {
    &&& a.bounds == b.bounds
    &&& a.level == b.level
    &&& a.mechanics@ == b.mechanics@
    &&& a.teleporters@ == b.teleporters@
    &&& a.speed_zones@ == b.speed_zones@
}

/// The food stage: the first food at the head is removed and scored, and its
/// kind's effect applied. At most one food is taken.
pub fn resolve_food(arena: &mut Arena, creature: &mut Snake) -> (r: Option<FoodHit>)
    requires
        old(arena).wf(),
        old(creature).wf(),
    ensures
        final(arena).wf(),
        final(creature).wf(),
        same_layout(&*final(arena), &*old(arena)),
        same_body(&*final(creature), &*old(creature)),
        final(arena).walls@ == old(arena).walls@,
        final(arena).pickups@ == old(arena).pickups@,
        final(creature).chain() == old(creature).chain(),
        final(creature).alive == old(creature).alive,
        ({
            let p = old(creature).head_spec();
            match first_index(food_cells(old(arena).foods@), p) {
                Some(i) => {
                    let f = old(arena).foods@[i];
                    &&& r == Some(
                        FoodHit {
                            kind: f.kind,
                            score: food_score_spec(f.kind, old(arena).level, old(creature).character_id),
                            position: p,
                        },
                    )
                    &&& final(arena).foods@ == old(arena).foods@.remove(i)
                    &&& final(creature).speed_boost == boost_after(f.kind, old(creature).speed_boost)
                    &&& final(creature).invincibility == invincibility_after(
                        f.kind,
                        old(creature).invincibility,
                    )
                },
                None => {
                    &&& r is None
                    &&& final(arena).foods@ == old(arena).foods@
                    &&& final(creature).speed_boost == old(creature).speed_boost
                    &&& final(creature).invincibility == old(creature).invincibility
                },
            }
        }),
{
    let p = creature.head();
    match find_food(&arena.foods, p) {
        None => None,
        Some(i) => {
            let f = arena.foods.remove(i);
            let score = crate::food::food_score(f.kind, arena.level, creature.character_id);
            match f.kind {
                FoodType::Speed => {
                    creature.speed_boost = Some(
                        TimedEffect { percent: SPEED_BOOST_PERCENT, remaining_ms: SPEED_BOOST_MS },
                    );
                },
                FoodType::Golden => {
                    creature.invincibility = Some(INVINCIBILITY_MS);
                },
                _ => {},
            }
            Some(FoodHit { kind: f.kind, score, position: p })
        },
    }
}

/// What entering `p` triggers among the special objects, if anything:
/// a teleporter before a pickup, each only where the level declares it. A
/// teleport is reported at the cell it lands on, a pickup where it lay.
pub open spec fn special_spec(a: &Arena, p: GridPosition) -> Option<SpecialHit> {
    if a.declares(SpecialMechanic::Teleporters) && teleport_target(a.teleporters@, p) is Some {
        Some(
            SpecialHit {
                kind: SpecialKind::Teleporter,
                position: teleport_target(a.teleporters@, p).unwrap(),
            },
        )
    } else if a.declares(SpecialMechanic::Invincibility) && first_index(a.pickups@, p) is Some {
        Some(SpecialHit { kind: SpecialKind::InvincibilityPickup, position: p })
    } else {
        None
    }
}

/// Where the head is once the special objects at `p` have acted.
pub open spec fn head_after_special(a: &Arena, p: GridPosition) -> GridPosition {
    if a.declares(SpecialMechanic::Teleporters) && teleport_target(a.teleporters@, p) is Some {
        teleport_target(a.teleporters@, p).unwrap()
    } else {
        p
    }
}

/// The special-object stage: a teleporter relocates the head to its paired
/// endpoint; otherwise a pickup is consumed and grants invincibility.
pub fn resolve_special(arena: &mut Arena, creature: &mut Snake) -> (r: Option<SpecialHit>)
    requires
        old(arena).wf(),
        old(creature).wf(),
    ensures
        final(arena).wf(),
        final(creature).wf(),
        same_layout(&*final(arena), &*old(arena)),
        same_body(&*final(creature), &*old(creature)),
        final(arena).walls@ == old(arena).walls@,
        final(arena).foods@ == old(arena).foods@,
        final(creature).alive == old(creature).alive,
        final(creature).speed_boost == old(creature).speed_boost,
        r == special_spec(&*old(arena), old(creature).head_spec()),
        final(creature).chain() == old(creature).chain().update(
            0,
            head_after_special(&*old(arena), old(creature).head_spec()),
        ),
        r matches Some(h) && h.kind == SpecialKind::InvincibilityPickup ==> {
            &&& final(arena).pickups@ == old(arena).pickups@.remove(
                first_index(old(arena).pickups@, old(creature).head_spec()).unwrap(),
            )
            &&& final(creature).invincibility == Some(INVINCIBILITY_MS)
        },
        !(r matches Some(h) && h.kind == SpecialKind::InvincibilityPickup) ==> {
            &&& final(arena).pickups@ == old(arena).pickups@
            &&& final(creature).invincibility == old(creature).invincibility
        },
{
    let p = creature.head();
    proof {
        assert(old(creature).chain().update(0, p) =~= old(creature).chain());
    }
    if arena.has_mechanic(SpecialMechanic::Teleporters) {
        if let Some(q) = find_teleport(&arena.teleporters, p) {
            creature.segments.set(0, q);
            return Some(SpecialHit { kind: SpecialKind::Teleporter, position: q });
        }
    }
    if arena.has_mechanic(SpecialMechanic::Invincibility) {
        if let Some(i) = find_cell(&arena.pickups, p) {
            arena.pickups.remove(i);
            creature.invincibility = Some(INVINCIBILITY_MS);
            return Some(SpecialHit { kind: SpecialKind::InvincibilityPickup, position: p });
        }
    }
    None
}

/// A wall of `kind` is destroyed by a creature that may break walls.
pub open spec fn wall_breaks(kind: WallType, breaker: bool) -> bool {
    breaker && kind == WallType::Breakable
}

/// Meeting a wall of `kind` kills: it is not broken, and invincibility (if
/// any) does not carry through it, as it never does through a boundary.
pub open spec fn wall_lethal(kind: WallType, breaker: bool, invincible: bool) -> bool {
    !wall_breaks(kind, breaker) && !(invincible && kind != WallType::Boundary)
}

/// The creature may break walls here: its character can, and the level
/// declares wall breaking.
pub open spec fn breaker_spec(a: &Arena, c: &Snake) -> bool {
    c.wall_breaker_spec() && a.declares(SpecialMechanic::WallBreaking)
}

/// The wall stage: returns what the head met and whether it was lethal.
pub fn resolve_wall(arena: &mut Arena, creature: &Snake) -> (r: (Option<WallHit>, bool))
    requires
        old(arena).wf(),
        creature.wf(),
    ensures
        final(arena).wf(),
        same_layout(&*final(arena), &*old(arena)),
        final(arena).foods@ == old(arena).foods@,
        final(arena).pickups@ == old(arena).pickups@,
        ({
            let p = creature.head_spec();
            let breaker = breaker_spec(&*old(arena), creature);
            match first_index(wall_cells(old(arena).walls@), p) {
                Some(j) => {
                    let k = old(arena).walls@[j].kind;
                    &&& r.0 == Some(WallHit { kind: k, position: p, broke: wall_breaks(k, breaker) })
                    &&& r.1 == wall_lethal(k, breaker, creature.invincibility is Some)
                    &&& final(arena).walls@ == if wall_breaks(k, breaker) {
                        old(arena).walls@.remove(j)
                    } else {
                        old(arena).walls@
                    }
                },
                None => {
                    &&& r.0 is None
                    &&& !r.1
                    &&& final(arena).walls@ == old(arena).walls@
                },
            }
        }),
{
    let p = creature.head();
    match find_wall(&arena.walls, p) {
        None => (None, false),
        Some(j) => {
            let k = arena.walls[j].kind;
            let breaker = creature.is_wall_breaker() && arena.has_mechanic(
                SpecialMechanic::WallBreaking,
            );
            if breaker && k == WallType::Breakable {
                arena.walls.remove(j);
                (Some(WallHit { kind: k, position: p, broke: true }), false)
            } else {
                let passes = creature.is_invincible() && k != WallType::Boundary;
                (Some(WallHit { kind: k, position: p, broke: false }), !passes)
            }
        },
    }
}

/// The invincibility after the food and special stages, for a head at `p`
/// and invincibility `inv` before them.
pub open spec fn invincibility_after_stages(a: &Arena, p: GridPosition, inv: Option<u64>) -> Option<
    u64,
> {
    let sp = special_spec(a, p);
    if sp matches Some(h) && h.kind == SpecialKind::InvincibilityPickup {
        Some(INVINCIBILITY_MS)
    } else {
        match first_index(food_cells(a.foods@), p) {
            Some(i) => invincibility_after(a.foods@[i].kind, inv),
            None => inv,
        }
    }
}

/// The lethal outcome, if any, once the head stands at `p` after the food and
/// special stages: a wall, then the body, then the boundary (where the level
/// does not wrap).
pub open spec fn death_spec(
    a: &Arena,
    chain: Seq<GridPosition>,
    p: GridPosition,
    breaker: bool,
    invincible: bool,
) -> Option<Death> {
    let wall_kills = match first_index(wall_cells(a.walls@), p) {
        Some(j) => wall_lethal(a.walls@[j].kind, breaker, invincible),
        None => false,
    };
    if wall_kills {
        Some(Death { cause: DeathCause::WallCollision, position: p })
    } else if hits_body(chain, p) {
        Some(Death { cause: DeathCause::SelfCollision, position: p })
    } else if !a.wraps() && !a.bounds.contains_spec(p.x as int, p.y as int) {
        Some(Death { cause: DeathCause::WallCollision, position: p })
    } else {
        None
    }
}

/// One resolution, as a relation: `a` is the arena and `chain`, `character_id`,
/// `boost` and `inv` the creature before it; `foods`, `walls`, `pickups`,
/// `chain1`, `boost1` and `inv1` are the same after it, and `r` its outcomes.
pub open spec fn resolved(
    a: &Arena,
    chain: Seq<GridPosition>,
    character_id: u32,
    boost: Option<TimedEffect>,
    inv: Option<u64>,
    foods: Seq<Food>,
    walls: Seq<Wall>,
    pickups: Seq<GridPosition>,
    chain1: Seq<GridPosition>,
    boost1: Option<TimedEffect>,
    inv1: Option<u64>,
    r: Collisions,
) -> bool {
    let head0 = chain[0];
    let landed = head_after_special(a, head0);
    let breaker = crate::creature::ability_spec(character_id)
        == crate::creature::CharacterAbility::WallBreaker && a.declares(
        SpecialMechanic::WallBreaking,
    );
    let fi = first_index(food_cells(a.foods@), head0);
    let wi = first_index(wall_cells(a.walls@), landed);
    &&& r.food == match fi {
        Some(i) => Some(
            FoodHit {
                kind: a.foods@[i].kind,
                score: food_score_spec(a.foods@[i].kind, a.level, character_id),
                position: head0,
            },
        ),
        None => None,
    }
    &&& foods == match fi {
        Some(i) => a.foods@.remove(i),
        None => a.foods@,
    }
    &&& boost1 == match fi {
        Some(i) => boost_after(a.foods@[i].kind, boost),
        None => boost,
    }
    &&& r.special == special_spec(a, head0)
    &&& pickups == if r.special matches Some(h) && h.kind == SpecialKind::InvincibilityPickup {
        a.pickups@.remove(first_index(a.pickups@, head0).unwrap())
    } else {
        a.pickups@
    }
    &&& inv1 == invincibility_after_stages(a, head0, inv)
    &&& chain1 == chain.update(0, landed)
    &&& r.wall == match wi {
        Some(j) => Some(
            WallHit {
                kind: a.walls@[j].kind,
                position: landed,
                broke: wall_breaks(a.walls@[j].kind, breaker),
            },
        ),
        None => None,
    }
    &&& walls == match wi {
        Some(j) => if wall_breaks(a.walls@[j].kind, breaker) {
            a.walls@.remove(j)
        } else {
            a.walls@
        },
        None => a.walls@,
    }
    &&& r.death == death_spec(a, chain1, landed, breaker, inv1 is Some)
}

/// Resolves every collision category for the head's new cell, in priority
/// order: food, special objects, walls, the body, the boundary. A lethal
/// outcome marks the creature dead and ends the checks; there is at most one
/// outcome per category, and at most one death.
pub fn resolve_collisions(arena: &mut Arena, creature: &mut Snake) -> (r: Collisions)
    requires
        old(arena).wf(),
        old(creature).wf(),
    ensures
        final(arena).wf(),
        final(creature).wf(),
        same_layout(&*final(arena), &*old(arena)),
        same_body(&*final(creature), &*old(creature)),
        resolved(
            &*old(arena),
            old(creature).chain(),
            old(creature).character_id,
            old(creature).speed_boost,
            old(creature).invincibility,
            final(arena).foods@,
            final(arena).walls@,
            final(arena).pickups@,
            final(creature).chain(),
            final(creature).speed_boost,
            final(creature).invincibility,
            r,
        ),
        final(creature).alive == (old(creature).alive && r.death is None),
{
    let food = resolve_food(arena, creature);
    let special = resolve_special(arena, creature);
    let (wall, wall_kills) = resolve_wall(arena, creature);
    let p = creature.head();
    let death = if wall_kills {
        Some(Death { cause: DeathCause::WallCollision, position: p })
    } else if body_hit(&creature.segments, p) {
        Some(Death { cause: DeathCause::SelfCollision, position: p })
    } else if !arena.wraps_at_edges() && !arena.bounds.contains(p) {
        Some(Death { cause: DeathCause::WallCollision, position: p })
    } else {
        None
    };
    if death.is_some() {
        creature.alive = false;
    }
    Collisions { food, special, wall, death }
}

/// A creature that may break walls (its character can, and the level
/// declares wall breaking) and lands on a breakable wall breaks it and lives:
/// the wall is removed and no death comes of it, unless its own body lies on
/// that cell or the cell is outside a grid that does not wrap.
pub proof fn lemma_wall_breaker_survives(
    a: &Arena,
    chain: Seq<GridPosition>,
    character_id: u32,
    boost: Option<TimedEffect>,
    inv: Option<u64>,
    foods: Seq<Food>,
    walls: Seq<Wall>,
    pickups: Seq<GridPosition>,
    chain1: Seq<GridPosition>,
    boost1: Option<TimedEffect>,
    inv1: Option<u64>,
    r: Collisions,
    j: int,
)
    requires
        resolved(a, chain, character_id, boost, inv, foods, walls, pickups, chain1, boost1, inv1, r),
        crate::creature::ability_spec(character_id) == crate::creature::CharacterAbility::WallBreaker,
        a.declares(SpecialMechanic::WallBreaking),
        first_index(wall_cells(a.walls@), head_after_special(a, chain[0])) == Some(j),
        a.walls@[j].kind == WallType::Breakable,
        !hits_body(chain1, head_after_special(a, chain[0])),
        a.wraps() || a.bounds.contains_spec(
            head_after_special(a, chain[0]).x as int,
            head_after_special(a, chain[0]).y as int,
        ),
    ensures
        r.death is None,
        r.wall == Some(
            WallHit {
                kind: WallType::Breakable,
                position: head_after_special(a, chain[0]),
                broke: true,
            },
        ),
        walls == a.walls@.remove(j),
{
}

/// Landing on a body segment past the grace window (index 3 or more after
/// the step) kills by self-collision, where no wall there kills first;
/// landing only where segments 1 and 2 lie, inside the grid and with no wall
/// there, kills nothing.
pub proof fn lemma_self_collision(
    a: &Arena,
    chain: Seq<GridPosition>,
    character_id: u32,
    boost: Option<TimedEffect>,
    inv: Option<u64>,
    foods: Seq<Food>,
    walls: Seq<Wall>,
    pickups: Seq<GridPosition>,
    chain1: Seq<GridPosition>,
    boost1: Option<TimedEffect>,
    inv1: Option<u64>,
    r: Collisions,
)
    requires
        resolved(a, chain, character_id, boost, inv, foods, walls, pickups, chain1, boost1, inv1, r),
        first_index(wall_cells(a.walls@), head_after_special(a, chain[0])) is None,
    ensures
        forall|i: int|
            SELF_COLLISION_GRACE < i < chain1.len() && #[trigger] chain1[i] == head_after_special(
                a,
                chain[0],
            ) ==> r.death == Some(
                Death {
                    cause: DeathCause::SelfCollision,
                    position: head_after_special(a, chain[0]),
                },
            ),
        (forall|i: int|
            SELF_COLLISION_GRACE < i < chain1.len() ==> #[trigger] chain1[i] != head_after_special(
                a,
                chain[0],
            )) && (a.wraps() || a.bounds.contains_spec(
            head_after_special(a, chain[0]).x as int,
            head_after_special(a, chain[0]).y as int,
        )) ==> r.death is None,
{
    let landing = head_after_special(a, chain[0]);
    assert forall|i: int|
        SELF_COLLISION_GRACE < i < chain1.len() && #[trigger] chain1[i] == landing implies r.death
        == Some(Death { cause: DeathCause::SelfCollision, position: landing }) by {
        assert(hits_body(chain1, landing));
    }
}

} // verus!
