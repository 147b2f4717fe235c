//! The movement engine: the accumulator-gated tick that steps the head,
//! shifts the chain, resolves collisions and applies growth.

use vstd::prelude::*;
use crate::grid::{Direction, GridBounds, GridPosition, opposite_spec, step_spec, wrap_spec};
use crate::creature::{
    Snake,
    TimedEffect,
    MAX_LENGTH,
    MAX_PERCENT,
    SPEED_LIMIT,
    passive_percent_spec,
    shifted,
    extended,
    countdown_spec,
};
use crate::collision::{Collisions, head_after_special, resolved, resolve_collisions, same_layout};
use crate::food::{aged_all, growth_spec};
use crate::input::{InputBuffer, sat_add};
use crate::level::{Arena, SpecialMechanic, zone_percent_spec};

verus! {

/// Accumulated progress that buys one move: a millisecond times a thousandth
/// of a move per second is a millionth of a move.
pub const TICK_UNIT: u64 = 1_000_000;

/// Length of a freshly spawned creature.
pub const START_LENGTH: u32 = 3;

/// What one call of the movement engine did.
#[derive(Clone, Copy, Debug, PartialEq, Eq, Structural)]
pub struct StepReport {
    /// A grid step was taken.
    pub stepped: bool,
    /// Outcomes of the collision checks; all empty without a step.
    pub collisions: Collisions,
    /// Segments appended by the growth controller.
    pub growth: u32,
}

/// A running level: the arena, the creature and its input buffer.
#[derive(Clone, Debug)]
pub struct Simulation {
    pub arena: Arena,
    pub creature: Snake,
    pub input: InputBuffer,
}

/// The percent multiplier of a speed boost, 100 without one.
pub open spec fn boost_percent(b: Option<TimedEffect>) -> u32 {
    match b {
        Some(e) => e.percent,
        None => 100,
    }
}

/// Effective speed: base × character multiplier × boost multiplier × zone
/// multiplier, in thousandths of a move per second, rounded down.
pub open spec fn effective_speed_spec(
    speed: u64,
    character_id: u32,
    boost: Option<TimedEffect>,
    zone: u32,
) -> int {
    (speed * passive_percent_spec(character_id) * boost_percent(boost) * zone) / 1_000_000
}

/// The direction of the next step: the buffered one, unless it reverses the
/// current direction.
pub open spec fn next_direction_spec(current: Direction, buffered: Option<Direction>) -> Direction {
    match buffered {
        Some(d) => if d != opposite_spec(current) { d } else { current },
        None => current,
    }
}

/// The cell the head steps to from `p` in direction `d`: one cell over, and
/// mapped onto the opposite edge where the level wraps.
pub open spec fn target_spec(a: &Arena, p: GridPosition, d: Direction) -> GridPosition {
    let raw = step_spec(p, d);
    if a.wraps() {
        GridPosition {
            x: wrap_spec(raw.0, a.bounds.width as int) as i32,
            y: wrap_spec(raw.1, a.bounds.height as int) as i32,
        }
    } else {
        GridPosition { x: raw.0 as i32, y: raw.1 as i32 }
    }
}

/// An empty collision record.
pub open spec fn no_collisions() -> Collisions {
    Collisions { food: None, special: None, wall: None, death: None }
}

pub fn empty_collisions() -> (r: Collisions)
    ensures
        r == no_collisions(),
{
    Collisions { food: None, special: None, wall: None, death: None }
}

/// The chain a creature of `length` spawns with at `head` lies inside `b`.
pub open spec fn spawn_fits(b: GridBounds, head: GridPosition, length: u32) -> bool {
    &&& b.contains_spec(head.x as int, head.y as int)
    &&& head.x - length >= 0
}

/// One call of the movement engine, as a relation between the simulation
/// before (`s0`) and after (`s1`) it, the elapsed time and its report.
pub open spec fn advanced(s0: &Simulation, s1: &Simulation, dt_ms: u32, r: StepReport) -> bool {
    &&& same_layout(&s1.arena, &s0.arena)
    &&& s1.creature.character_id == s0.creature.character_id
    &&& s1.creature.max_speed == s0.creature.max_speed
    &&& s1.creature.length >= s0.creature.length
    &&& (!s0.creature.alive ==> r == (StepReport {
        stepped: false,
        collisions: no_collisions(),
        growth: 0,
    }) && *s1 == *s0)
    &&& ({
        let acc = sat_add(s0.creature.accumulator, (dt_ms * s0.speed_now()) as u64);
        let c0 = &s0.creature;
        let c1 = &s1.creature;
        let buffered = if s0.input@.directions.len() > 0 {
            Some(s0.input@.directions[0])
        } else {
            None
        };
        let d = next_direction_spec(c0.direction, buffered);
        let h = target_spec(&s0.arena, c0.head_spec(), d);
        let mid = shifted(c0.chain(), h);
        let chain1 = mid.update(0, head_after_special(&s0.arena, h));
        s0.creature.alive ==> {
            &&& r.stepped == (acc >= TICK_UNIT)
            &&& !r.stepped ==> {
                &&& c1.accumulator == acc
                &&& r == (StepReport { stepped: false, collisions: no_collisions(), growth: 0 })
                &&& c1.chain() == c0.chain()
                &&& c1.length == c0.length
                &&& c1.direction == c0.direction
                &&& c1.speed == c0.speed
                &&& c1.speed_boost == c0.speed_boost
                &&& c1.invincibility == c0.invincibility
                &&& c1.alive
                &&& s1.arena == s0.arena
                &&& s1.input@ == s0.input@
            }
            &&& r.stepped ==> {
                &&& c1.accumulator == acc - TICK_UNIT
                &&& c1.direction == d
                &&& s1.input@.directions == if buffered is Some {
                    s0.input@.directions.drop_first()
                } else {
                    s0.input@.directions
                }
                &&& s1.input@.heading == s0.input@.heading
                &&& resolved(
                    &s0.arena,
                    mid,
                    c0.character_id,
                    c0.speed_boost,
                    c0.invincibility,
                    s1.arena.foods@,
                    s1.arena.walls@,
                    s1.arena.pickups@,
                    chain1,
                    c1.speed_boost,
                    c1.invincibility,
                    r.collisions,
                )
                &&& c1.chain() == extended(chain1, c0.chain().last(), r.growth as nat)
                &&& r.growth == match r.collisions.food {
                    Some(f) => crate::creature::min_u64(
                        growth_spec(f.kind) as int,
                        MAX_LENGTH - c0.length,
                    ) as u32,
                    None => 0,
                }
                &&& c1.length == c0.length + r.growth
                &&& c1.speed == if r.growth > 0 {
                    crate::creature::min_u64(
                        c0.speed + crate::creature::GROWTH_SPEED_STEP,
                        c0.max_speed as int,
                    ) as u64
                } else {
                    c0.speed
                }
                &&& c1.alive == (r.collisions.death is None)
            }
        }
    })
}

/// Where the head lands after a step to `target` and the special objects,
/// it is inside the grid when the level wraps (or it survived the boundary).
proof fn lemma_landing_within(a: &Arena, target: GridPosition)
    requires
        a.wf(),
        a.wraps() ==> a.bounds.contains_spec(target.x as int, target.y as int),
    ensures
        a.wraps() ==> a.bounds.contains_spec(
            head_after_special(a, target).x as int,
            head_after_special(a, target).y as int,
        ),
{
    if a.wraps() && crate::collision::teleport_target(a.teleporters@, target) is Some {
        let q = crate::collision::teleport_target(a.teleporters@, target).unwrap();
        crate::collision::lemma_teleport_target_is_endpoint(a.teleporters@, target);
        let i = choose|i: int|
            0 <= i < a.teleporters@.len() && (#[trigger] a.teleporters@[i].a == q
                || a.teleporters@[i].b == q);
        assert(a.bounds.contains_spec(a.teleporters@[i].a.x as int, a.teleporters@[i].a.y as int));
    }
}

/// A chain inside the grid, shifted behind a head that lands inside it and
/// extended at its old tail, stays inside it.
proof fn lemma_chain_within(
    b: GridBounds,
    chain0: Seq<GridPosition>,
    target: GridPosition,
    landed: GridPosition,
    chain2: Seq<GridPosition>,
    g: nat,
)
    requires
        chain0.len() >= 1,
        forall|i: int|
            0 <= i < chain0.len() ==> #[trigger] b.contains_spec(chain0[i].x as int, chain0[i].y as int),
        b.contains_spec(landed.x as int, landed.y as int),
        chain2 == extended(shifted(chain0, target).update(0, landed), chain0.last(), g),
    ensures
        forall|i: int|
            0 <= i < chain2.len() ==> #[trigger] b.contains_spec(chain2[i].x as int, chain2[i].y as int),
{
    let chain1 = shifted(chain0, target).update(0, landed);
    assert(b.contains_spec(chain0.last().x as int, chain0.last().y as int));
    assert forall|i: int| 0 <= i < chain2.len() implies #[trigger] b.contains_spec(
        chain2[i].x as int,
        chain2[i].y as int,
    ) by {
        if i == 0 {
        } else if i < chain1.len() {
            assert(chain2[i] == chain0[i - 1]);
            assert(b.contains_spec(chain0[i - 1].x as int, chain0[i - 1].y as int));
        } else {
            assert(chain2[i] == chain0.last());
        }
    }
}

impl Simulation {
    pub open spec fn wf(&self) -> bool {
        &&& self.arena.wf()
        &&& self.creature.wf()
        &&& self.input.wf()
        &&& (self.creature.alive ==> self.creature.within(self.arena.bounds))
    }

    /// The creature's effective speed right now.
    pub open spec fn speed_now(&self) -> int {
        effective_speed_spec(
            self.creature.speed,
            self.creature.character_id,
            self.creature.speed_boost,
            zone_percent_spec(
                self.arena.declares(SpecialMechanic::SpeedZones),
                self.arena.speed_zones@,
                self.creature.head_spec(),
            ),
        )
    }

    /// A level in play with a creature of `length` whose head is at `head`,
    /// facing right with its body trailing to the left.
    pub fn new(
        arena: Arena,
        head: GridPosition,
        length: u32,
        speed: u64,
        max_speed: u64,
        character_id: u32,
    ) -> (r: Simulation)
        requires
            arena.wf(),
            1 <= length <= MAX_LENGTH,
            speed <= max_speed <= SPEED_LIMIT,
            spawn_fits(arena.bounds, head, length),
        ensures
            r.wf(),
            r.arena == arena,
            r.creature.chain() == crate::creature::spawn_chain(head, length as nat),
            r.creature.length == length,
            r.creature.alive,
            r.creature.direction == Direction::Right,
            r.creature.accumulator == 0,
            r.creature.speed == speed,
            r.creature.max_speed == max_speed,
            r.creature.character_id == character_id,
            r.creature.speed_boost is None,
            r.creature.invincibility is None,
            r.input@.directions.len() == 0,
            r.input@.heading == Direction::Right,
    {
        let creature = Snake::spawn(head, length, speed, max_speed, character_id);
        let input = InputBuffer::new(Direction::Right);
        let r = Simulation { arena, creature, input };
        assert(r.creature.within(r.arena.bounds));
        r
    }

    /// A level in play with a creature of the starting length spawned at the
    /// centre of the grid.
    pub fn start(arena: Arena, speed: u64, max_speed: u64, character_id: u32) -> (r: Simulation)
        requires
            arena.wf(),
            arena.bounds.width / 2 >= START_LENGTH,
            speed <= max_speed <= SPEED_LIMIT,
        ensures
            r.wf(),
            r.arena == arena,
            r.creature.chain() == crate::creature::spawn_chain(
                GridPosition {
                    x: (arena.bounds.width / 2) as i32,
                    y: (arena.bounds.height / 2) as i32,
                },
                START_LENGTH as nat,
            ),
            r.creature.length == START_LENGTH,
            r.creature.alive,
            r.creature.direction == Direction::Right,
            r.creature.accumulator == 0,
            r.creature.speed == speed,
            r.creature.character_id == character_id,
            r.input@.directions.len() == 0,
    {
        let head = GridPosition {
            x: (arena.bounds.width / 2) as i32,
            y: (arena.bounds.height / 2) as i32,
        };
        Simulation::new(arena, head, START_LENGTH, speed, max_speed, character_id)
    }

    /// The creature's effective speed, in thousandths of a move per second.
    pub fn effective_speed(&self) -> (r: u64)
        requires
            self.wf(),
        ensures
            r == self.speed_now(),
            r <= SPEED_LIMIT * 1000,
    {
        let zone = self.arena.zone_percent_at(self.creature.head()) as u64;
        let passive = crate::creature::character_speed_percent(self.creature.character_id) as u64;
        let boost = match self.creature.speed_boost {
            Some(e) => e.percent as u64,
            None => 100,
        };
        let s = self.creature.speed;
        assert(s * passive <= SPEED_LIMIT * 1000) by (nonlinear_arith)
            requires s <= SPEED_LIMIT, passive <= 1000;
        assert(s * passive * boost <= SPEED_LIMIT * 1000 * 1000) by (nonlinear_arith)
            requires s * passive <= SPEED_LIMIT * 1000, boost <= 1000;
        assert(s * passive * boost * zone <= SPEED_LIMIT * 1000 * 1000 * 1000) by (nonlinear_arith)
            requires s * passive * boost <= SPEED_LIMIT * 1000 * 1000, zone <= 1000;
        let r = s * passive * boost * zone / 1_000_000;
        assert(r <= SPEED_LIMIT * 1000) by (nonlinear_arith)
            requires s * passive * boost * zone <= SPEED_LIMIT * 1000 * 1000 * 1000,
            r == s * passive * boost * zone / 1_000_000;
        r
    }

    /// Advances the engine by `dt_ms`. A dead creature does nothing. Otherwise
    /// the accumulator grows by the elapsed time times the effective speed;
    /// once it holds a whole move, one move is paid for (the excess carries
    /// over), the next buffered direction is taken unless it reverses the
    /// current one, the head steps one cell (wrapping where the level wraps),
    /// the chain follows, collisions are resolved, and food eaten appends its
    /// growth at the cell the tail held before the step.
    pub fn advance(&mut self, dt_ms: u32) -> (r: StepReport)
        requires
            old(self).wf(),
        ensures
            final(self).wf(),
            advanced(&*old(self), &*final(self), dt_ms, r),
    {
        if !self.creature.alive {
            return StepReport { stepped: false, collisions: empty_collisions(), growth: 0 };
        }
        let eff = self.effective_speed();
        assert((dt_ms as u64) * eff <= u32::MAX * (SPEED_LIMIT * 1000)) by (nonlinear_arith)
            requires eff <= SPEED_LIMIT * 1000;
        let progress = (dt_ms as u64) * eff;
        let acc = crate::input::saturating_add_u64(self.creature.accumulator, progress);
        if acc < TICK_UNIT {
            self.creature.accumulator = acc;
            return StepReport { stepped: false, collisions: empty_collisions(), growth: 0 };
        }
        self.creature.accumulator = acc - TICK_UNIT;
        let current = self.creature.direction;
        let d = match self.input.take_next() {
            Some(b) => if b != current.opposite() {
                b
            } else {
                current
            },
            None => current,
        };
        self.creature.direction = d;
        let head = self.creature.head();
        proof {
            assert(self.arena.bounds.contains_spec(head.x as int, head.y as int));
        }
        let raw = match d {
            Direction::Up => GridPosition { x: head.x, y: head.y + 1 },
            Direction::Down => GridPosition { x: head.x, y: head.y - 1 },
            Direction::Left => GridPosition { x: head.x - 1, y: head.y },
            Direction::Right => GridPosition { x: head.x + 1, y: head.y },
        };
        let target = if self.arena.wraps_at_edges() {
            raw.wrapped(&self.arena.bounds)
        } else {
            raw
        };
        let tail = self.creature.tail();
        self.creature.shift_chain(target);
        let ghost c_mid = self.creature;
        let collisions = resolve_collisions(&mut self.arena, &mut self.creature);
        let ghost chain1 = self.creature.chain();
        let growth = match collisions.food {
            Some(f) => {
                let g = f.kind.growth_amount();
                let room = MAX_LENGTH - self.creature.length;
                if g < room {
                    g
                } else {
                    room
                }
            },
            None => 0,
        };
        if growth > 0 {
            self.creature.grow(growth, tail);
        } else {
            proof {
                assert(self.creature.chain() =~= extended(chain1, tail, 0));
            }
        }
        proof {
            assert(c_mid.chain() == shifted(old(self).creature.chain(), target));
            assert(target == target_spec(&old(self).arena, old(self).creature.head_spec(), d));
            assert(self.creature.chain() == extended(chain1, old(self).creature.chain().last(), growth as nat));
            assert(resolved(
                &old(self).arena,
                c_mid.chain(),
                old(self).creature.character_id,
                old(self).creature.speed_boost,
                old(self).creature.invincibility,
                self.arena.foods@,
                self.arena.walls@,
                self.arena.pickups@,
                chain1,
                self.creature.speed_boost,
                self.creature.invincibility,
                collisions,
            ));
            if self.creature.alive {
                let a0 = &old(self).arena;
                let landed = head_after_special(a0, target);
                lemma_landing_within(a0, target);
                lemma_chain_within(
                    a0.bounds,
                    old(self).creature.chain(),
                    target,
                    landed,
                    self.creature.chain(),
                    growth as nat,
                );
            }
        }
        StepReport { stepped: true, collisions, growth }
    }
}

/// A teleport never starts outside the grid of a well-formed arena.
proof fn lemma_no_teleport_outside(a: &Arena, p: GridPosition)
    requires
        a.wf(),
        !a.bounds.contains_spec(p.x as int, p.y as int),
    ensures
        crate::collision::teleport_target(a.teleporters@, p) is None,
{
    if crate::collision::teleport_target(a.teleporters@, p) is Some {
        crate::collision::lemma_teleport_source_is_endpoint(a.teleporters@, p);
        let i = choose|i: int|
            0 <= i < a.teleporters@.len() && crate::collision::touches(
                #[trigger] a.teleporters@[i],
                p,
            );
        assert(a.bounds.contains_spec(a.teleporters@[i].a.x as int, a.teleporters@[i].a.y as int));
    }
}

/// In a step that no teleporter redirects and that does not cross a wrapping
/// edge, and that is not lethal, the head lands on the cell next to where it
/// was, in the direction of the step: Manhattan distance 1.
pub proof fn lemma_head_moves_one_cell(s0: &Simulation, s1: &Simulation, dt_ms: u32, r: StepReport)
    requires
        s0.wf(),
        advanced(s0, s1, dt_ms, r),
        r.stepped,
        r.collisions.death is None,
        !(r.collisions.special matches Some(h) && h.kind == crate::collision::SpecialKind::Teleporter),
        s0.arena.wraps() ==> s0.arena.bounds.contains_spec(
            step_spec(s0.creature.head_spec(), s1.creature.direction).0,
            step_spec(s0.creature.head_spec(), s1.creature.direction).1,
        ),
    ensures
        s1.creature.head_spec().x == step_spec(s0.creature.head_spec(), s1.creature.direction).0,
        s1.creature.head_spec().y == step_spec(s0.creature.head_spec(), s1.creature.direction).1,
        crate::grid::manhattan_spec(s1.creature.head_spec(), s0.creature.head_spec()) == 1,
{
    let c0 = &s0.creature;
    let p = c0.head_spec();
    assert(s0.arena.bounds.contains_spec(c0.chain()[0].x as int, c0.chain()[0].y as int));
    let buffered = if s0.input@.directions.len() > 0 {
        Some(s0.input@.directions[0])
    } else {
        None
    };
    let d = next_direction_spec(c0.direction, buffered);
    let h = target_spec(&s0.arena, p, d);
    let mid = shifted(c0.chain(), h);
    assert(mid[0] == h);
    let chain1 = mid.update(0, head_after_special(&s0.arena, h));
    assert(chain1[0] == head_after_special(&s0.arena, h));
    assert(head_after_special(&s0.arena, h) == h);
    assert(s1.creature.chain()[0] == chain1[0]);
}

/// At an edge, a step outward into a level that does not wrap is lethal, with
/// exactly one death, by wall collision, at the cell beyond the edge.
pub proof fn lemma_edge_exit_without_wrap(s0: &Simulation, s1: &Simulation, dt_ms: u32, r: StepReport)
    requires
        s0.wf(),
        advanced(s0, s1, dt_ms, r),
        r.stepped,
        !s0.arena.wraps(),
        !s0.arena.bounds.contains_spec(
            step_spec(s0.creature.head_spec(), s1.creature.direction).0,
            step_spec(s0.creature.head_spec(), s1.creature.direction).1,
        ),
    ensures
        r.collisions.death == Some(
            crate::collision::Death {
                cause: crate::collision::DeathCause::WallCollision,
                position: GridPosition {
                    x: step_spec(s0.creature.head_spec(), s1.creature.direction).0 as i32,
                    y: step_spec(s0.creature.head_spec(), s1.creature.direction).1 as i32,
                },
            },
        ),
        !s1.creature.alive,
{
    let a = &s0.arena;
    let c0 = &s0.creature;
    let p = c0.head_spec();
    assert(a.bounds.contains_spec(c0.chain()[0].x as int, c0.chain()[0].y as int));
    let buffered = if s0.input@.directions.len() > 0 {
        Some(s0.input@.directions[0])
    } else {
        None
    };
    let d = next_direction_spec(c0.direction, buffered);
    let h = target_spec(a, p, d);
    assert(!a.bounds.contains_spec(h.x as int, h.y as int));
    lemma_no_teleport_outside(a, h);
    let mid = shifted(c0.chain(), h);
    let chain1 = mid.update(0, head_after_special(a, h));
    assert(head_after_special(a, h) == h);
    assert(!crate::collision::hits_body(chain1, h)) by {
        assert forall|j: int| 2 < j < chain1.len() implies chain1[j] != h by {
            assert(chain1[j] == c0.chain()[j - 1]);
            assert(a.bounds.contains_spec(c0.chain()[j - 1].x as int, c0.chain()[j - 1].y as int));
        }
    }
}

/// At an edge, a step outward into a level that wraps re-enters at the
/// opposite edge with no death, where that cell holds no wall, no teleporter
/// and no body segment within reach.
pub proof fn lemma_edge_exit_with_wrap(s0: &Simulation, s1: &Simulation, dt_ms: u32, r: StepReport)
    requires
        s0.wf(),
        advanced(s0, s1, dt_ms, r),
        r.stepped,
        s0.arena.wraps(),
        ({
            let h = target_spec(&s0.arena, s0.creature.head_spec(), s1.creature.direction);
            &&& crate::collision::first_index(crate::collision::wall_cells(s0.arena.walls@), h) is None
            &&& crate::collision::teleport_target(s0.arena.teleporters@, h) is None
            &&& !crate::collision::hits_body(shifted(s0.creature.chain(), h), h)
        }),
    ensures
        r.collisions.death is None,
        s1.creature.alive,
        s1.creature.head_spec() == target_spec(
            &s0.arena,
            s0.creature.head_spec(),
            s1.creature.direction,
        ),
        s0.arena.bounds.contains_spec(s1.creature.head_spec().x as int, s1.creature.head_spec().y as int),
        s1.creature.head_spec().x == step_spec(s0.creature.head_spec(), s1.creature.direction).0 % (
        s0.arena.bounds.width as int),
        s1.creature.head_spec().y == step_spec(s0.creature.head_spec(), s1.creature.direction).1 % (
        s0.arena.bounds.height as int),
{
    let a = &s0.arena;
    let c0 = &s0.creature;
    let p = c0.head_spec();
    let buffered = if s0.input@.directions.len() > 0 {
        Some(s0.input@.directions[0])
    } else {
        None
    };
    let d = next_direction_spec(c0.direction, buffered);
    assert(a.bounds.contains_spec(c0.chain()[0].x as int, c0.chain()[0].y as int));
    let raw = step_spec(p, d);
    crate::grid::lemma_wrap_is_modulo(raw.0, a.bounds.width as int);
    crate::grid::lemma_wrap_is_modulo(raw.1, a.bounds.height as int);
    let h = target_spec(a, p, d);
    let mid = shifted(c0.chain(), h);
    let chain1 = mid.update(0, head_after_special(a, h));
    assert(head_after_special(a, h) == h);
    assert(chain1 =~= mid);
    assert(s1.creature.chain()[0] == chain1[0]);
}

/// After every call of the engine the creature has exactly `length` body
/// segments besides its head.
pub proof fn lemma_segments_match_length(s0: &Simulation, s1: &Simulation, dt_ms: u32, r: StepReport)
    requires
        s0.wf(),
        s1.wf(),
        advanced(s0, s1, dt_ms, r),
    ensures
        s1.creature.body().len() == s1.creature.length,
{
}

/// `sims` is a run of the engine: each simulation follows from the one
/// before by one call, with the elapsed times `dts` and reports `reps`.
pub open spec fn is_run(sims: Seq<Simulation>, dts: Seq<u32>, reps: Seq<StepReport>) -> bool {
    &&& sims.len() == dts.len() + 1
    &&& reps.len() == dts.len()
    &&& forall|i: int| 0 <= i < dts.len() ==> advanced(&sims[i], &sims[i + 1], dts[i], reps[i])
}

/// Along any run of the engine the length never decreases, and it stays
/// the same over calls in which no food is eaten: growth is never undone
/// without an explicit reset.
pub proof fn lemma_length_monotone(sims: Seq<Simulation>, dts: Seq<u32>, reps: Seq<StepReport>)
    requires
        is_run(sims, dts, reps),
    ensures
        forall|i: int, j: int|
            0 <= i <= j < sims.len() ==> (#[trigger] sims[i]).creature.length <= (
            #[trigger] sims[j]).creature.length,
        (forall|i: int| 0 <= i < reps.len() ==> (#[trigger] reps[i]).collisions.food is None)
            ==> sims.last().creature.length == sims[0].creature.length,
    decreases dts.len(),
{
    if dts.len() > 0 {
        let n = dts.len() - 1;
        let prefix = sims.take(n + 1);
        assert forall|i: int| 0 <= i < n implies advanced(
            &prefix[i],
            &prefix[i + 1],
            dts.take(n)[i],
            reps.take(n)[i],
        ) by {
            assert(advanced(&sims[i], &sims[i + 1], dts[i], reps[i]));
        }
        lemma_length_monotone(prefix, dts.take(n), reps.take(n));
        assert(advanced(&sims[n], &sims[n + 1], dts[n], reps[n]));
        assert forall|i: int, j: int|
            0 <= i <= j < sims.len() implies (#[trigger] sims[i]).creature.length <= (
            #[trigger] sims[j]).creature.length by {
            if j <= n {
                assert(prefix[i] == sims[i] && prefix[j] == sims[j]);
            } else if i <= n {
                assert(prefix[i] == sims[i] && prefix[n] == sims[n]);
            }
        }
        if forall|i: int| 0 <= i < reps.len() ==> (#[trigger] reps[i]).collisions.food is None {
            assert forall|i: int| 0 <= i < n implies (#[trigger] reps.take(n)[i]).collisions.food is None by {
                assert(reps.take(n)[i] == reps[i]);
            }
            assert(reps[n].collisions.food is None);
            assert(prefix.last() == sims[n]);
        }
    }
}

/// Where the level wraps, the cell a step from inside the grid leads to is
/// the step taken modulo the grid size, so it lies inside the grid and an
/// out-of-bounds cell never reaches the boundary check.
pub proof fn lemma_wrap_target_inside(a: &Arena, p: GridPosition, d: Direction)
    requires
        a.wf(),
        a.wraps(),
        a.bounds.contains_spec(p.x as int, p.y as int),
    ensures
        target_spec(a, p, d).x == step_spec(p, d).0 % (a.bounds.width as int),
        target_spec(a, p, d).y == step_spec(p, d).1 % (a.bounds.height as int),
        a.bounds.contains_spec(target_spec(a, p, d).x as int, target_spec(a, p, d).y as int),
{
    let raw = step_spec(p, d);
    crate::grid::lemma_wrap_is_modulo(raw.0, a.bounds.width as int);
    crate::grid::lemma_wrap_is_modulo(raw.1, a.bounds.height as int);
}

} // verus!
