//! Food spawning: per-level settings, the explicit spawn timers advanced once
//! per frame, and placing the planned food on safe cells.

use vstd::prelude::*;
use crate::engine::Simulation;
use crate::food::{
    Food,
    all_inner_safe,
    kind_for_draw_spec,
    FoodType,
    find_safe_food_position,
    is_inner_spec,
    is_safe_spec,
    random_food_kind,
    random_in_range,
};
use crate::grid::GridPosition;
use crate::input::sat_add;
use crate::level::SpecialMechanic;

verus! {

/// Period of the burst spawn on levels with multiple foods, in milliseconds.
pub const MULTI_SPAWN_MS: u64 = 20_000;

/// Period at which normal and bonus food moves on levels with moving food,
/// in milliseconds.
pub const FOOD_MOVE_MS: u64 = 3000;

/// In ten, how many special spawns are speed food rather than golden food.
pub const SPEED_SPECIAL_IN_TEN: u32 = 7;

#[derive(Clone, Copy, Debug, PartialEq, Eq, Structural)]
pub struct SpawnSettings {
    pub min_food: u32,
    pub max_food: u32,
    /// Period of the regular spawn timer; bonus food comes every four
    /// periods and special food every eight.
    pub interval_ms: u64,
}

pub open spec fn settings_spec(level: u32) -> SpawnSettings {
    if 1 <= level <= 2 {
        SpawnSettings { min_food: 1, max_food: 2, interval_ms: 3000 }
    } else if 3 <= level <= 5 {
        SpawnSettings { min_food: 1, max_food: 3, interval_ms: 2500 }
    } else if 6 <= level <= 8 {
        SpawnSettings { min_food: 2, max_food: 4, interval_ms: 2000 }
    } else if 9 <= level <= 10 {
        SpawnSettings { min_food: 2, max_food: 5, interval_ms: 1500 }
    } else {
        SpawnSettings { min_food: 1, max_food: 3, interval_ms: 2000 }
    }
}

/// Spawn settings for a level: more food, more often, as levels rise.
pub fn spawn_settings_for_level(level: u32) -> (r: SpawnSettings)
    ensures
        r == settings_spec(level),
{
    if 1 <= level && level <= 2 {
        SpawnSettings { min_food: 1, max_food: 2, interval_ms: 3000 }
    } else if 3 <= level && level <= 5 {
        SpawnSettings { min_food: 1, max_food: 3, interval_ms: 2500 }
    } else if 6 <= level && level <= 8 {
        SpawnSettings { min_food: 2, max_food: 4, interval_ms: 2000 }
    } else if 9 <= level && level <= 10 {
        SpawnSettings { min_food: 2, max_food: 5, interval_ms: 1500 }
    } else {
        SpawnSettings { min_food: 1, max_food: 3, interval_ms: 2000 }
    }
}

/// Which spawns are due this frame.
#[derive(Clone, Copy, Debug, PartialEq, Eq, Structural)]
pub struct SpawnPlan {
    pub regular: bool,
    pub bonus: bool,
    pub special: bool,
    pub burst: bool,
    /// Normal and bonus food moves to new cells.
    pub relocate: bool,
}

/// The repeating spawn timers, with the time each has run since it last fired.
#[derive(Clone, Copy, Debug, PartialEq, Eq, Structural)]
pub struct SpawnController {
    pub settings: SpawnSettings,
    pub regular_ms: u64,
    pub bonus_ms: u64,
    pub special_ms: u64,
    pub burst_ms: u64,
    pub move_ms: u64,
}

/// A repeating timer at `elapsed` after `dt`: whether it fired, and its new elapsed time.
pub open spec fn timer_spec(elapsed: u64, dt: u64, period: u64) -> (bool, u64) {
    let t = sat_add(elapsed, dt);
    if t >= period { (true, (t % period) as u64) } else { (false, t) }
}

pub fn tick_timer(elapsed: u64, dt: u64, period: u64) -> (r: (bool, u64))
    requires
        period > 0,
    ensures
        r == timer_spec(elapsed, dt, period),
{
    let t = crate::input::saturating_add_u64(elapsed, dt);
    if t >= period {
        (true, t % period)
    } else {
        (false, t)
    }
}

/// The plan for a frame, from the timers that fired, the food on the field
/// and whether the level declares multiple foods.
pub open spec fn plan_spec(
    s: SpawnSettings,
    regular_fired: bool,
    bonus_fired: bool,
    special_fired: bool,
    burst_fired: bool,
    move_fired: bool,
    food_count: usize,
    multiple: bool,
    moving: bool,
) -> SpawnPlan {
    SpawnPlan {
        regular: food_count < s.min_food || (regular_fired && food_count < s.max_food),
        bonus: bonus_fired,
        special: special_fired,
        burst: multiple && burst_fired,
        relocate: moving && move_fired,
    }
}

/// One advance of the spawn timers, as a relation between the timers before
/// (`c0`) and after (`c1`) it and the plan `r` it gives.
pub open spec fn planned(
    c0: SpawnController,
    c1: SpawnController,
    dt_ms: u64,
    food_count: usize,
    multiple: bool,
    moving: bool,
    r: SpawnPlan,
) -> bool {
    let s = c0.settings;
    let reg = timer_spec(c0.regular_ms, dt_ms, s.interval_ms);
    let bon = timer_spec(c0.bonus_ms, dt_ms, (4 * s.interval_ms) as u64);
    let spe = timer_spec(c0.special_ms, dt_ms, (8 * s.interval_ms) as u64);
    let bur = timer_spec(c0.burst_ms, dt_ms, MULTI_SPAWN_MS);
    let mov = timer_spec(c0.move_ms, dt_ms, FOOD_MOVE_MS);
    &&& c1.settings == s
    &&& c1.regular_ms == reg.1
    &&& c1.bonus_ms == bon.1
    &&& c1.special_ms == spe.1
    &&& c1.burst_ms == if multiple { bur.1 } else { c0.burst_ms }
    &&& c1.move_ms == if moving { mov.1 } else { c0.move_ms }
    &&& r == plan_spec(s, reg.0, bon.0, spe.0, bur.0, mov.0, food_count, multiple, moving)
}

impl SpawnController {
    pub open spec fn wf(&self) -> bool {
        1 <= self.settings.interval_ms <= 3000
    }

    pub open spec fn new_spec(level: u32) -> SpawnController {
        SpawnController {
            settings: settings_spec(level),
            regular_ms: 0,
            bonus_ms: 0,
            special_ms: 0,
            burst_ms: 0,
            move_ms: 0,
        }
    }

    /// Fresh timers for `level`.
    pub fn new(level: u32) -> (r: SpawnController)
        ensures
            r.wf(),
            r.settings == settings_spec(level),
            r == SpawnController::new_spec(level),
    {
        SpawnController {
            settings: spawn_settings_for_level(level),
            regular_ms: 0,
            bonus_ms: 0,
            special_ms: 0,
            burst_ms: 0,
            move_ms: 0,
        }
    }

    /// Advances every timer by `dt_ms` and says which spawns are due. The
    /// burst timer runs only on levels with multiple foods, the move timer
    /// only on levels with moving food.
    pub fn plan(&mut self, dt_ms: u64, food_count: usize, multiple: bool, moving: bool) -> (r:
        SpawnPlan)
        requires
            old(self).wf(),
        ensures
            final(self).wf(),
            planned(*old(self), *final(self), dt_ms, food_count, multiple, moving, r),
    {
        let s = self.settings;
        let (reg, reg_ms) = tick_timer(self.regular_ms, dt_ms, s.interval_ms);
        let (bon, bon_ms) = tick_timer(self.bonus_ms, dt_ms, 4 * s.interval_ms);
        let (spe, spe_ms) = tick_timer(self.special_ms, dt_ms, 8 * s.interval_ms);
        self.regular_ms = reg_ms;
        self.bonus_ms = bon_ms;
        self.special_ms = spe_ms;
        let mut burst = false;
        if multiple {
            let (b, b_ms) = tick_timer(self.burst_ms, dt_ms, MULTI_SPAWN_MS);
            self.burst_ms = b_ms;
            burst = b;
        }
        let mut relocate = false;
        if moving {
            let (m, m_ms) = tick_timer(self.move_ms, dt_ms, FOOD_MOVE_MS);
            self.move_ms = m_ms;
            relocate = m;
        }
        let n = food_count as u64;
        let regular = n < s.min_food as u64 || (reg && n < s.max_food as u64);
        SpawnPlan { regular, bonus: bon, special: spe, burst, relocate }
    }
}

/// The special food a draw in `0..10` selects: speed food for the first
/// seven values, golden food otherwise.
pub fn special_kind_for_draw(draw: u32) -> (r: FoodType)
    ensures
        r == if draw < SPEED_SPECIAL_IN_TEN { FoodType::Speed } else { FoodType::Golden },
{
    if draw < SPEED_SPECIAL_IN_TEN {
        FoodType::Speed
    } else {
        FoodType::Golden
    }
}

/// Food may lie at `p` of a level with grid `w` × `h` and occupied cells `occ`.
pub open spec fn placeable(p: GridPosition, w: u32, h: u32, occ: Seq<GridPosition>) -> bool {
    is_inner_spec(p, w, h) && is_safe_spec(p, occ)
}

/// Cells that new food keeps its distance from: the creature and the walls.
pub open spec fn occupied_spec(s: &Simulation) -> Seq<GridPosition> {
    s.creature.segments@ + crate::collision::wall_cells(s.arena.walls@)
}

/// Food may lie at `p` in `s`.
pub open spec fn placeable_in(s: &Simulation, p: GridPosition) -> bool {
    placeable(p, s.arena.bounds.width, s.arena.bounds.height, occupied_spec(s))
}

/// Every inner cell of `s` is free for food, so no placement can fail.
pub open spec fn all_free(s: &Simulation) -> bool {
    3 <= s.arena.bounds.width && 3 <= s.arena.bounds.height && all_inner_safe(
        s.arena.bounds.width,
        s.arena.bounds.height,
        occupied_spec(s),
    )
}

/// `k` is a kind that a draw for random food on `level` can give.
pub open spec fn random_kind(level: u32, k: FoodType) -> bool {
    exists|d: u32| d < 1000 && k == kind_for_draw_spec(level, d)
}

/// Pieces a plan asks for besides a burst: regular, bonus, special.
pub open spec fn fixed_count(p: SpawnPlan) -> int {
    (if p.regular { 1int } else { 0 }) + (if p.bonus { 1int } else { 0 }) + (if p.special {
        1int
    } else {
        0
    })
}

/// Whether a plan's burst is carried out on a level that `multiple` says
/// declares multiple foods.
pub open spec fn bursts(p: SpawnPlan, multiple: bool) -> bool {
    p.burst && multiple
}

/// The kinds slot `i` of a plan may hold: the regular slot a random kind,
/// the bonus slot bonus food, the special slot speed or golden food, and
/// each burst slot a random kind.
pub open spec fn slot_kind(p: SpawnPlan, level: u32, i: int, k: FoodType) -> bool {
    let r = if p.regular { 1int } else { 0 };
    let b = r + if p.bonus { 1int } else { 0 };
    let sp = b + if p.special { 1int } else { 0 };
    if i < r {
        random_kind(level, k)
    } else if i < b {
        k == FoodType::Bonus
    } else if i < sp {
        k == FoodType::Speed || k == FoodType::Golden
    } else {
        random_kind(level, k)
    }
}

/// Kinds some slot of the plan may hold.
pub open spec fn plan_kind(p: SpawnPlan, multiple: bool, level: u32, k: FoodType) -> bool {
    ||| (p.regular || bursts(p, multiple)) && random_kind(level, k)
    ||| p.bonus && k == FoodType::Bonus
    ||| p.special && (k == FoodType::Speed || k == FoodType::Golden)
}

/// Everything but the food of `s0` stays in `s1`.
pub open spec fn same_but_food(s0: &Simulation, s1: &Simulation) -> bool {
    &&& s1.creature == s0.creature
    &&& s1.input@ == s0.input@
    &&& s1.arena.bounds == s0.arena.bounds
    &&& s1.arena.level == s0.arena.level
    &&& s1.arena.mechanics@ == s0.arena.mechanics@
    &&& s1.arena.walls@ == s0.arena.walls@
    &&& s1.arena.teleporters@ == s0.arena.teleporters@
    &&& s1.arena.speed_zones@ == s0.arena.speed_zones@
    &&& s1.arena.pickups@ == s0.arena.pickups@
}

/// A fresh piece of food lying where food may lie in `s`, of a kind the plan allows.
pub open spec fn good_piece(s: &Simulation, p: SpawnPlan, f: Food) -> bool {
    &&& f == Food::new_spec(f.position, f.kind, s.arena.level)
    &&& placeable_in(s, f.position)
    &&& plan_kind(p, s.arena.declares(SpecialMechanic::MultipleFoods), s.arena.level, f.kind)
}

/// Carrying out plan `p` took `s0` to `s1`: new food is only appended, each
/// piece fresh, placeable and of an allowed kind; where every inner cell is
/// free, exactly the planned pieces were added, slot by slot.
pub open spec fn spawned(s0: &Simulation, s1: &Simulation, p: SpawnPlan) -> bool {
    let n0 = s0.arena.foods@.len();
    let added = s1.arena.foods@.subrange(n0 as int, s1.arena.foods@.len() as int);
    let multiple = s0.arena.declares(SpecialMechanic::MultipleFoods);
    &&& same_but_food(s0, s1)
    &&& n0 <= s1.arena.foods@.len()
    &&& s1.arena.foods@.take(n0 as int) == s0.arena.foods@
    &&& added.len() <= fixed_count(p) + if bursts(p, multiple) { 3int } else { 0 }
    &&& forall|i: int| 0 <= i < added.len() ==> good_piece(s0, p, #[trigger] added[i])
    &&& all_free(s0) ==> {
        &&& !bursts(p, multiple) ==> added.len() == fixed_count(p)
        &&& bursts(p, multiple) ==> fixed_count(p) + 2 <= added.len() <= fixed_count(p) + 3
        &&& forall|i: int| 0 <= i < added.len() ==> slot_kind(p, s0.arena.level, i, #[trigger] added[i].kind)
    }
}

/// Normal and bonus food moved from `s0` to `s1`: each piece either stays or,
/// if normal or bonus, lies on a placeable cell and is otherwise the same;
/// where every inner cell is free, every normal and bonus piece moved.
pub open spec fn relocated(s0: &Simulation, s1: &Simulation) -> bool {
    &&& same_but_food(s0, s1)
    &&& s1.arena.foods@.len() == s0.arena.foods@.len()
    &&& forall|i: int|
        0 <= i < s0.arena.foods@.len() ==> {
            let f0 = #[trigger] s0.arena.foods@[i];
            let f1 = s1.arena.foods@[i];
            let movable = f0.kind == FoodType::Normal || f0.kind == FoodType::Bonus;
            let moved = movable && f1 == (Food { position: f1.position, ..f0 }) && placeable_in(
                s0,
                f1.position,
            );
            &&& f1 == f0 || moved
            &&& (all_free(s0) && movable) ==> moved
        }
}

impl Simulation {
    /// Cells that new food must keep its distance from: the creature's
    /// segments and the walls.
    pub fn occupied_cells(&self) -> (r: Vec<GridPosition>)
        ensures
            r@ == occupied_spec(self),
    {
        let mut r = crate::session::copy_vec(&self.creature.segments);
        let ghost cells = crate::collision::wall_cells(self.arena.walls@);
        let mut i: usize = 0;
        while i < self.arena.walls.len()
            invariant
                i <= self.arena.walls@.len(),
                cells == crate::collision::wall_cells(self.arena.walls@),
                r@ == self.creature.segments@ + cells.take(i as int),
            decreases self.arena.walls@.len() - i,
        {
            r.push(self.arena.walls[i].position);
            i = i + 1;
            assert(r@ =~= self.creature.segments@ + cells.take(i as int));
        }
        assert(cells.take(cells.len() as int) =~= cells);
        r
    }

    fn place(&mut self, kind: FoodType, occupied: &Vec<GridPosition>)
        requires
            old(self).wf(),
            occupied@ == occupied_spec(&*old(self)),
        ensures
            final(self).wf(),
            same_but_food(&*old(self), &*final(self)),
            final(self).arena.foods@ == old(self).arena.foods@ || exists|p: GridPosition|
                placeable_in(&*old(self), p) && final(self).arena.foods@ == old(self).arena.foods@.push(
                    Food::new_spec(p, kind, old(self).arena.level),
                ),
            all_free(&*old(self)) ==> final(self).arena.foods@.len() == old(self).arena.foods@.len()
                + 1,
    {
        let b = self.arena.bounds;
        match find_safe_food_position(b.width, b.height, occupied) {
            Some(p) => {
                let f = Food::new(p, kind, self.arena.level);
                self.arena.foods.push(f);
                assert(placeable_in(&*old(self), p));
                assert(self.arena.foods@ == old(self).arena.foods@.push(
                    Food::new_spec(p, kind, old(self).arena.level),
                ));
            },
            None => {},
        }
    }

    /// Carries out a spawn plan. Every new piece lies strictly inside the
    /// border, at grid distance 2 or more from the creature and the walls;
    /// a placement that finds no such cell is skipped until a later frame.
    /// Regular food has a random kind, bonus food is bonus, special food is
    /// speed or golden, and a burst on a level with multiple foods adds two
    /// or three pieces of random kinds.
    pub fn spawn_food(&mut self, plan: SpawnPlan)
        requires
            old(self).wf(),
        ensures
            final(self).wf(),
            spawned(&*old(self), &*final(self), plan),
    {
        let occupied = self.occupied_cells();
        let ghost start = self.arena.foods@;
        let level = self.arena.level;
        let multiple = self.arena.has_mechanic(SpecialMechanic::MultipleFoods);
        let mut planned: Vec<FoodType> = Vec::new();
        if plan.regular {
            planned.push(random_food_kind(level));
        }
        if plan.bonus {
            planned.push(FoodType::Bonus);
        }
        if plan.special {
            planned.push(special_kind_for_draw(random_in_range(0, 10)));
        }
        assert(planned@.len() == fixed_count(plan));
        assert forall|j: int| 0 <= j < planned@.len() implies slot_kind(plan, level, j, #[trigger] planned@[j])
            && plan_kind(plan, multiple, level, planned@[j]) by {}
        let mut extra: u32 = 0;
        if plan.burst && multiple {
            let count = random_in_range(2, 4);
            while extra < count
                invariant
                    2 <= count <= 3,
                    extra <= count,
                    plan.burst && multiple,
                    planned@.len() == fixed_count(plan) + extra,
                    forall|j: int|
                        0 <= j < planned@.len() ==> slot_kind(plan, level, j, #[trigger] planned@[j])
                            && plan_kind(plan, multiple, level, planned@[j]),
                decreases count - extra,
            {
                let k = random_food_kind(level);
                planned.push(k);
                extra = extra + 1;
            }
        }
        let mut i: usize = 0;
        while i < planned.len()
            invariant
                self.wf(),
                i <= planned@.len(),
                planned@.len() <= fixed_count(plan) + 3,
                !(plan.burst && multiple) ==> planned@.len() == fixed_count(plan),
                (plan.burst && multiple) ==> fixed_count(plan) + 2 <= planned@.len() <= fixed_count(
                    plan,
                ) + 3,
                forall|j: int|
                    0 <= j < planned@.len() ==> slot_kind(plan, level, j, #[trigger] planned@[j])
                        && plan_kind(plan, multiple, level, planned@[j]),
                multiple == old(self).arena.declares(SpecialMechanic::MultipleFoods),
                level == old(self).arena.level,
                occupied@ == occupied_spec(&*old(self)),
                same_but_food(&*old(self), &*self),
                start == old(self).arena.foods@,
                start.len() <= self.arena.foods@.len() <= start.len() + i,
                self.arena.foods@.take(start.len() as int) == start,
                forall|j: int|
                    start.len() <= j < self.arena.foods@.len() ==> good_piece(
                        &*old(self),
                        plan,
                        #[trigger] self.arena.foods@[j],
                    ),
                all_free(&*old(self)) ==> self.arena.foods@.len() == start.len() + i,
                all_free(&*old(self)) ==> forall|j: int|
                    0 <= j < i ==> #[trigger] self.arena.foods@[start.len() + j].kind
                        == planned@[j],
            decreases planned@.len() - i,
        {
            let ghost before = self.arena.foods@;
            assert(occupied_spec(&*self) == occupied_spec(&*old(self)));
            self.place(planned[i], &occupied);
            proof {
                if self.arena.foods@ != before {
                    let p = choose|p: GridPosition|
                        placeable_in(&*old(self), p) && self.arena.foods@ == before.push(
                            Food::new_spec(p, planned@[i as int], level),
                        );
                    assert(self.arena.foods@.take(start.len() as int) =~= before.take(
                        start.len() as int,
                    ));
                    assert(good_piece(&*old(self), plan, self.arena.foods@[before.len() as int]));
                }
            }
            i = i + 1;
        }
        proof {
            let n0 = start.len();
            let added = self.arena.foods@.subrange(n0 as int, self.arena.foods@.len() as int);
            assert forall|j: int| 0 <= j < added.len() implies good_piece(
                &*old(self),
                plan,
                #[trigger] added[j],
            ) by {
                assert(added[j] == self.arena.foods@[n0 + j]);
            }
            if all_free(&*old(self)) {
                assert forall|j: int| 0 <= j < added.len() implies slot_kind(
                    plan,
                    level,
                    j,
                    #[trigger] added[j].kind,
                ) by {
                    assert(added[j] == self.arena.foods@[n0 + j]);
                    assert(self.arena.foods@[n0 + j].kind == planned@[j]);
                }
            }
        }
    }

    /// Moves every normal and bonus piece to a fresh safe cell, found as for
    /// spawning; a piece for which no cell is found stays. Other kinds stay.
    pub fn relocate_food(&mut self)
        requires
            old(self).wf(),
        ensures
            final(self).wf(),
            relocated(&*old(self), &*final(self)),
    {
        let occupied = self.occupied_cells();
        let b = self.arena.bounds;
        let n = self.arena.foods.len();
        let mut i: usize = 0;
        while i < n
            invariant
                self.wf(),
                n == self.arena.foods@.len(),
                n == old(self).arena.foods@.len(),
                i <= n,
                occupied@ == occupied_spec(&*old(self)),
                b == old(self).arena.bounds,
                same_but_food(&*old(self), &*self),
                forall|j: int| i <= j < n ==> self.arena.foods@[j] == old(self).arena.foods@[j],
                forall|j: int|
                    0 <= j < i ==> {
                        let f0 = #[trigger] old(self).arena.foods@[j];
                        let f1 = self.arena.foods@[j];
                        let movable = f0.kind == FoodType::Normal || f0.kind == FoodType::Bonus;
                        let moved = movable && f1 == (Food { position: f1.position, ..f0 })
                            && placeable_in(&*old(self), f1.position);
                        &&& f1 == f0 || moved
                        &&& (all_free(&*old(self)) && movable) ==> moved
                    },
            decreases n - i,
        {
            let f = self.arena.foods[i];
            if f.kind == FoodType::Normal || f.kind == FoodType::Bonus {
                match find_safe_food_position(b.width, b.height, &occupied) {
                    Some(p) => {
                        self.arena.foods.set(i, Food { position: p, ..f });
                    },
                    None => {},
                }
            }
            i = i + 1;
        }
    }
}

} // verus!
