//! Food: kinds, scoring, growth, expiry, random kind and placement.

use vstd::prelude::*;
use rand::Rng;
use crate::grid::{GridPosition, manhattan_spec};
use crate::creature::score_percent_spec;

verus! {

/// How many random cells a placement search tries before it gives up.
pub const PLACEMENT_ATTEMPTS: u32 = 50;

/// How long speed food lies before it expires, in milliseconds.
pub const SPEED_FOOD_LIFETIME_MS: u64 = 10_000;

/// How long golden food lies before it expires, in milliseconds.
pub const GOLDEN_FOOD_LIFETIME_MS: u64 = 15_000;

#[derive(Clone, Copy, Debug, PartialEq, Eq, Structural)]
pub enum FoodType {
    Normal,
    Bonus,
    Speed,
    Golden,
}

/// A piece of food on the grid.
#[derive(Clone, Copy, Debug, PartialEq, Eq, Structural)]
pub struct Food {
    pub position: GridPosition,
    pub kind: FoodType,
    /// Points shown for this piece (its base score times the level).
    pub score_value: u64,
    /// Time left before it disappears, in milliseconds; `None` never expires.
    pub expires_in_ms: Option<u64>,
}

pub open spec fn growth_spec(kind: FoodType) -> u32 {
    match kind {
        FoodType::Normal => 1,
        FoodType::Bonus => 2,
        FoodType::Speed => 1,
        FoodType::Golden => 3,
    }
}

pub open spec fn base_score_spec(kind: FoodType) -> u64 {
    match kind {
        FoodType::Normal => 10,
        FoodType::Bonus => 25,
        FoodType::Speed => 15,
        FoodType::Golden => 100,
    }
}

/// Points for eating `kind` on `level` as `character_id`: base × level ×
/// the character's multiplier, rounded down.
pub open spec fn food_score_spec(kind: FoodType, level: u32, character_id: u32) -> u64 {
    (base_score_spec(kind) * level * score_percent_spec(character_id) / 100) as u64
}

pub open spec fn lifetime_spec(kind: FoodType) -> Option<u64> {
    match kind {
        FoodType::Speed => Some(SPEED_FOOD_LIFETIME_MS),
        FoodType::Golden => Some(GOLDEN_FOOD_LIFETIME_MS),
        _ => None,
    }
}

impl FoodType {
    /// Segments gained by eating this kind.
    pub fn growth_amount(&self) -> (r: u32)
        ensures
            r == growth_spec(*self),
    {
        match self {
            FoodType::Normal => 1,
            FoodType::Bonus => 2,
            FoodType::Speed => 1,
            FoodType::Golden => 3,
        }
    }

    /// Score of this kind before the level and character multipliers.
    pub fn base_score(&self) -> (r: u64)
        ensures
            r == base_score_spec(*self),
    {
        match self {
            FoodType::Normal => 10,
            FoodType::Bonus => 25,
            FoodType::Speed => 15,
            FoodType::Golden => 100,
        }
    }
}

/// Points for eating `kind` on `level` as `character_id`.
pub fn food_score(kind: FoodType, level: u32, character_id: u32) -> (r: u64)
    ensures
        r == food_score_spec(kind, level, character_id),
{
    let base = kind.base_score();
    let pct = crate::creature::character_score_percent(character_id) as u64;
    assert(base * level <= 100 * u32::MAX) by (nonlinear_arith)
        requires base <= 100;
    assert(base * level * pct <= 100 * u32::MAX * 150) by (nonlinear_arith)
        requires base * level <= 100 * u32::MAX, pct <= 150;
    base * (level as u64) * pct / 100
}

impl Food {
    pub open spec fn new_spec(position: GridPosition, kind: FoodType, level: u32) -> Food {
        Food {
            position,
            kind,
            score_value: (base_score_spec(kind) * level) as u64,
            expires_in_ms: lifetime_spec(kind),
        }
    }

    /// A fresh piece of `kind` at `position`, worth its base score times
    /// `level`, expiring after its kind's lifetime.
    pub fn new(position: GridPosition, kind: FoodType, level: u32) -> (r: Food)
        ensures
            r.position == position,
            r.kind == kind,
            r.score_value == base_score_spec(kind) * level,
            r.expires_in_ms == lifetime_spec(kind),
            r == Food::new_spec(position, kind, level),
    {
        let base = kind.base_score();
        assert(base * level <= 100 * u32::MAX) by (nonlinear_arith)
            requires base <= 100;
        let expires_in_ms = match kind {
            FoodType::Speed => Some(SPEED_FOOD_LIFETIME_MS),
            FoodType::Golden => Some(GOLDEN_FOOD_LIFETIME_MS),
            _ => None,
        };
        Food { position, kind, score_value: base * (level as u64), expires_in_ms }
    }
}

/// A piece after `dt_ms`: its countdown lowered, or `None` once it has expired.
pub open spec fn aged(f: Food, dt_ms: u64) -> Option<Food> {
    match f.expires_in_ms {
        None => Some(f),
        Some(t) => if t > dt_ms {
            Some(Food { expires_in_ms: Some((t - dt_ms) as u64), ..f })
        } else {
            None
        },
    }
}

/// Every piece aged by `dt_ms`, the expired ones removed, order kept.
pub open spec fn aged_all(s: Seq<Food>, dt_ms: u64) -> Seq<Food>
    decreases s.len(),
{
    if s.len() == 0 {
        Seq::empty()
    } else {
        let rest = aged_all(s.drop_last(), dt_ms);
        match aged(s.last(), dt_ms) {
            Some(f) => rest.push(f),
            None => rest,
        }
    }
}

/// Counts every piece's expiry down by `dt_ms` and removes those that expire.
pub fn expire_foods(foods: &mut Vec<Food>, dt_ms: u64)
    ensures
        final(foods)@ == aged_all(old(foods)@, dt_ms),
{
    let ghost start = foods@;
    let mut kept: Vec<Food> = Vec::new();
    let mut i: usize = 0;
    let n = foods.len();
    while i < n
        invariant
            n == foods@.len(),
            foods@ == start,
            i <= n,
            kept@ == aged_all(start.take(i as int), dt_ms),
        decreases n - i,
    {
        let f = foods[i];
        assert(start.take(i as int + 1).drop_last() =~= start.take(i as int));
        assert(start.take(i as int + 1).last() == f);
        match f.expires_in_ms {
            None => kept.push(f),
            Some(t) => if t > dt_ms {
                kept.push(Food { expires_in_ms: Some(t - dt_ms), ..f });
            },
        }
        i = i + 1;
    }
    assert(start.take(n as int) =~= start);
    *foods = kept;
}

/// Per-mille chance thresholds on `level` for golden, speed and bonus food.
pub open spec fn golden_chance(level: u32) -> int {
    20 + 2 * level
}

pub open spec fn speed_chance(level: u32) -> int {
    50 + 5 * level
}

pub open spec fn bonus_chance(level: u32) -> int {
    150 + 10 * level
}

pub open spec fn kind_for_draw_spec(level: u32, draw: u32) -> FoodType {
    if draw < golden_chance(level) {
        FoodType::Golden
    } else if draw < golden_chance(level) + speed_chance(level) {
        FoodType::Speed
    } else if draw < golden_chance(level) + speed_chance(level) + bonus_chance(level) {
        FoodType::Bonus
    } else {
        FoodType::Normal
    }
}

/// The kind of food a uniform draw in `0..1000` selects on `level`: golden,
/// speed and bonus food each take a per-mille share that grows with the level,
/// normal food takes the rest.
pub fn food_kind_for_draw(level: u32, draw: u32) -> (r: FoodType)
    ensures
        r == kind_for_draw_spec(level, draw),
{
    let l = level as u64;
    let d = draw as u64;
    let golden = 20 + 2 * l;
    let speed = golden + 50 + 5 * l;
    let bonus = speed + 150 + 10 * l;
    if d < golden {
        FoodType::Golden
    } else if d < speed {
        FoodType::Speed
    } else if d < bonus {
        FoodType::Bonus
    } else {
        FoodType::Normal
    }
}

/// Relies on `rand::thread_rng` and `Rng::gen_range` on `lo..hi`: a value in
/// the half-open range, which is not empty.
#[verifier::external_body]
pub(crate) fn random_in_range(lo: u32, hi: u32) -> (r: u32)
    requires
        lo < hi,
    ensures
        lo <= r < hi,
{
    rand::thread_rng().gen_range(lo..hi)
}

/// A random kind of food for `level`.
pub fn random_food_kind(level: u32) -> (r: FoodType)
    ensures
        exists|draw: u32| draw < 1000 && r == kind_for_draw_spec(level, draw),
{
    let draw = random_in_range(0, 1000);
    food_kind_for_draw(level, draw)
}

/// Whether `p` keeps a grid distance of at least 2 from every occupied cell.
pub open spec fn is_safe_spec(p: GridPosition, occupied: Seq<GridPosition>) -> bool {
    forall|i: int| 0 <= i < occupied.len() ==> manhattan_spec(p, #[trigger] occupied[i]) >= 2
}

/// Whether `p` keeps a grid distance of at least 2 from every occupied cell.
pub fn is_safe_food_cell(p: GridPosition, occupied: &Vec<GridPosition>) -> (r: bool)
    ensures
        r == is_safe_spec(p, occupied@),
{
    let mut i: usize = 0;
    while i < occupied.len()
        invariant
            i <= occupied@.len(),
            forall|j: int| 0 <= j < i ==> manhattan_spec(p, #[trigger] occupied@[j]) >= 2,
        decreases occupied@.len() - i,
    {
        if p.manhattan_distance(&occupied[i]) < 2 {
            return false;
        }
        i = i + 1;
    }
    true
}

/// Whether `p` lies strictly inside the border of a `width` × `height` grid.
pub open spec fn is_inner_spec(p: GridPosition, width: u32, height: u32) -> bool {
    1 <= p.x < width - 1 && 1 <= p.y < height - 1
}

/// Every cell strictly inside the border of a `width` × `height` grid keeps
/// its distance from `occupied`.
pub open spec fn all_inner_safe(width: u32, height: u32, occupied: Seq<GridPosition>) -> bool {
    forall|p: GridPosition| #[trigger] is_inner_spec(p, width, height) ==> is_safe_spec(p, occupied)
}

/// Searches for a cell for new food: up to `PLACEMENT_ATTEMPTS` random cells
/// strictly inside the border, the first that keeps its distance from every
/// occupied cell. `None` when all attempts fail or the grid has no inner cell;
/// the caller skips this spawn and tries again later.
pub fn find_safe_food_position(width: u32, height: u32, occupied: &Vec<GridPosition>) -> (r: Option<
    GridPosition,
>)
    requires
        width <= crate::grid::MAX_GRID_SIDE,
        height <= crate::grid::MAX_GRID_SIDE,
    ensures
        r matches Some(p) ==> is_inner_spec(p, width, height) && is_safe_spec(p, occupied@),
        width < 3 || height < 3 ==> r is None,
        3 <= width && 3 <= height && all_inner_safe(width, height, occupied@) ==> r is Some,
{
    if width < 3 || height < 3 {
        return None;
    }
    let mut attempt: u32 = 0;
    while attempt < PLACEMENT_ATTEMPTS
        invariant
            3 <= width <= crate::grid::MAX_GRID_SIDE,
            3 <= height <= crate::grid::MAX_GRID_SIDE,
            all_inner_safe(width, height, occupied@) ==> attempt == 0,
        decreases PLACEMENT_ATTEMPTS - attempt,
    {
        let x = random_in_range(1, width - 1);
        let y = random_in_range(1, height - 1);
        let p = GridPosition { x: x as i32, y: y as i32 };
        assert(is_inner_spec(p, width, height));
        if is_safe_food_cell(p, occupied) {
            return Some(p);
        }
        attempt = attempt + 1;
    }
    None
}

} // verus!
