//! The creature: its segment chain, speed, character and timed effects.

use vstd::prelude::*;
use crate::grid::{Direction, GridBounds, GridPosition};

verus! {

/// Speeds are in thousandths of a move per second; no speed exceeds this.
pub const SPEED_LIMIT: u64 = 1_000_000;

/// Percent multipliers (speed boosts, zones) never exceed this.
pub const MAX_PERCENT: u32 = 1000;

/// Flat speed increase applied once per growth event (a tenth of a move per second).
pub const GROWTH_SPEED_STEP: u64 = 100;

/// Most segments a creature may have.
pub const MAX_LENGTH: u32 = 1_000_000_000;

/// Speed multiplier of a speed boost, in percent.
pub const SPEED_BOOST_PERCENT: u32 = 150;

/// How long a speed boost lasts, in milliseconds.
pub const SPEED_BOOST_MS: u64 = 5000;

/// How long invincibility lasts, in milliseconds.
pub const INVINCIBILITY_MS: u64 = 5000;

/// Passive speed multiplier of the speed-boost character, in percent.
pub const SPEED_CHARACTER_PERCENT: u32 = 120;

/// Number of selectable characters; ids run from 1 to this.
pub const CHARACTER_COUNT: u32 = 4;

/// A character's special ability.
#[derive(Clone, Copy, Debug, PartialEq, Eq, Structural)]
pub enum CharacterAbility {
    Balanced,
    SpeedBoost,
    WallBreaker,
    ScoreBooster,
}

/// A temporary effect: a percent multiplier and the time it has left.
#[derive(Clone, Copy, Debug, PartialEq, Eq, Structural)]
pub struct TimedEffect {
    pub percent: u32,
    pub remaining_ms: u64,
}

/// The player entity. `segments[0]` is the head; `segments[i]` for
/// `1 <= i <= length` is body segment `i`, ordered from the head to the tail,
/// so a creature of length `length` has `length` body segments besides its head.
#[derive(Clone, Debug)]
pub struct Snake {
    pub direction: Direction,
    /// Base speed, before character, effect and zone multipliers.
    pub speed: u64,
    /// Ceiling that growth cannot raise the base speed past.
    pub max_speed: u64,
    /// Progress towards the next move, in millionths of a move.
    pub accumulator: u64,
    pub length: u32,
    pub alive: bool,
    pub character_id: u32,
    pub speed_boost: Option<TimedEffect>,
    /// Remaining invincibility, in milliseconds.
    pub invincibility: Option<u64>,
    pub segments: Vec<GridPosition>,
}

pub open spec fn ability_spec(character_id: u32) -> CharacterAbility {
    if character_id == 2 {
        CharacterAbility::SpeedBoost
    } else if character_id == 3 {
        CharacterAbility::WallBreaker
    } else if character_id == 4 {
        CharacterAbility::ScoreBooster
    } else {
        CharacterAbility::Balanced
    }
}

/// The special ability of a character id (unknown ids have none).
pub fn character_ability(character_id: u32) -> (r: CharacterAbility)
    ensures
        r == ability_spec(character_id),
{
    if character_id == 2 {
        CharacterAbility::SpeedBoost
    } else if character_id == 3 {
        CharacterAbility::WallBreaker
    } else if character_id == 4 {
        CharacterAbility::ScoreBooster
    } else {
        CharacterAbility::Balanced
    }
}

pub open spec fn score_percent_spec(character_id: u32) -> u32 {
    if character_id == 2 {
        90
    } else if character_id == 3 {
        110
    } else if character_id == 4 {
        150
    } else {
        100
    }
}

/// Score multiplier of a character, in percent (unknown ids score plainly).
pub fn character_score_percent(character_id: u32) -> (r: u32)
    ensures
        r == score_percent_spec(character_id),
{
    if character_id == 2 {
        90
    } else if character_id == 3 {
        110
    } else if character_id == 4 {
        150
    } else {
        100
    }
}

pub open spec fn passive_percent_spec(character_id: u32) -> u32 {
    if ability_spec(character_id) == CharacterAbility::SpeedBoost {
        SPEED_CHARACTER_PERCENT
    } else {
        100
    }
}

/// Passive speed multiplier of a character, in percent.
pub fn character_speed_percent(character_id: u32) -> (r: u32)
    ensures
        r == passive_percent_spec(character_id),
{
    match character_ability(character_id) {
        CharacterAbility::SpeedBoost => SPEED_CHARACTER_PERCENT,
        _ => 100,
    }
}

/// A character id brought into the range of known characters.
pub fn clamp_character_id(character_id: u32) -> (r: u32)
    ensures
        1 <= r <= CHARACTER_COUNT,
        1 <= character_id <= CHARACTER_COUNT ==> r == character_id,
        character_id < 1 ==> r == 1,
        character_id > CHARACTER_COUNT ==> r == CHARACTER_COUNT,
{
    if character_id < 1 {
        1
    } else if character_id > CHARACTER_COUNT {
        CHARACTER_COUNT
    } else {
        character_id
    }
}

/// `n` cells in a row, from `head` leftwards.
pub open spec fn trail(head: GridPosition, n: nat) -> Seq<GridPosition> {
    Seq::new(n, |i: int| GridPosition { x: (head.x - i) as i32, y: head.y })
}

/// The chain a creature of `length` spawns with: the head at `head`, then its
/// `length` body segments trailing one cell at a time against its initial
/// rightward direction.
pub open spec fn spawn_chain(head: GridPosition, length: nat) -> Seq<GridPosition> {
    trail(head, length + 1)
}

/// The chain after one step: the new head, then every segment taking the
/// place its predecessor held before the step.
pub open spec fn shifted(chain: Seq<GridPosition>, new_head: GridPosition) -> Seq<GridPosition> {
    seq![new_head] + chain.take(chain.len() - 1)
}

/// The chain with `k` segments appended at `tail`.
pub open spec fn extended(chain: Seq<GridPosition>, tail: GridPosition, k: nat) -> Seq<GridPosition> {
    chain + Seq::new(k, |i: int| tail)
}

pub open spec fn min_u64(a: int, b: int) -> int {
    if a < b { a } else { b }
}

impl TimedEffect {
    pub open spec fn wf(self) -> bool {
        self.percent <= MAX_PERCENT && self.remaining_ms > 0
    }
}

/// What is left of a countdown after `dt_ms`; `None` once it reaches zero.
pub open spec fn countdown_spec(remaining: u64, dt_ms: u64) -> Option<u64> {
    if remaining > dt_ms { Some((remaining - dt_ms) as u64) } else { None }
}

impl Snake {
    pub open spec fn chain(&self) -> Seq<GridPosition> {
        self.segments@
    }

    pub open spec fn head_spec(&self) -> GridPosition {
        self.segments@[0]
    }

    /// The body segments, index 1 first, without the head.
    pub open spec fn body(&self) -> Seq<GridPosition> {
        self.segments@.drop_first()
    }

    pub open spec fn wf(&self) -> bool {
        &&& 1 <= self.length <= MAX_LENGTH
        &&& self.segments@.len() == self.length + 1
        &&& self.speed <= self.max_speed <= SPEED_LIMIT
        &&& (self.speed_boost matches Some(e) ==> e.wf())
        &&& (self.invincibility matches Some(t) ==> t > 0)
    }

    /// Every segment lies inside the grid.
    pub open spec fn within(&self, b: GridBounds) -> bool {
        forall|i: int|
            0 <= i < self.segments@.len() ==> #[trigger] b.contains_spec(
                self.segments@[i].x as int,
                self.segments@[i].y as int,
            )
    }

    pub open spec fn wall_breaker_spec(&self) -> bool {
        ability_spec(self.character_id) == CharacterAbility::WallBreaker
    }

    /// A living creature at `head`, facing right, with its body trailing to
    /// the left, no accumulated progress and no effects.
    pub fn spawn(head: GridPosition, length: u32, speed: u64, max_speed: u64, character_id: u32) -> (r:
        Snake)
        requires
            1 <= length <= MAX_LENGTH,
            speed <= max_speed <= SPEED_LIMIT,
            head.x - length >= i32::MIN,
        ensures
            r.wf(),
            r.chain() == spawn_chain(head, length as nat),
            r.direction == Direction::Right,
            r.speed == speed && r.max_speed == max_speed,
            r.accumulator == 0,
            r.length == length,
            r.alive,
            r.character_id == character_id,
            r.speed_boost is None && r.invincibility is None,
    {
        let mut segments: Vec<GridPosition> = Vec::new();
        let mut i: u32 = 0;
        while i <= length
            invariant
                i <= length + 1,
                length <= MAX_LENGTH,
                head.x - length >= i32::MIN,
                segments@ == trail(head, i as nat),
            decreases length + 1 - i,
        {
            segments.push(GridPosition { x: head.x - i as i32, y: head.y });
            i = i + 1;
            assert(segments@ =~= trail(head, i as nat));
        }
        Snake {
            direction: Direction::Right,
            speed,
            max_speed,
            accumulator: 0,
            length,
            alive: true,
            character_id,
            speed_boost: None,
            invincibility: None,
            segments,
        }
    }

    pub fn head(&self) -> (r: GridPosition)
        requires
            self.wf(),
        ensures
            r == self.head_spec(),
    {
        self.segments[0]
    }

    /// The last segment of the chain.
    pub fn tail(&self) -> (r: GridPosition)
        requires
            self.wf(),
        ensures
            r == self.chain().last(),
    {
        self.segments[self.segments.len() - 1]
    }

    pub fn is_invincible(&self) -> (r: bool)
        ensures
            r == self.invincibility is Some,
    {
        self.invincibility.is_some()
    }

    pub fn is_wall_breaker(&self) -> (r: bool)
        ensures
            r == self.wall_breaker_spec(),
    {
        character_ability(self.character_id) == CharacterAbility::WallBreaker
    }

    /// Moves the head to `new_head`; each segment takes the cell its
    /// predecessor held before the move. Every target is read from the
    /// snapshot of the old chain, so no cell is skipped or doubled.
    pub fn shift_chain(&mut self, new_head: GridPosition)
        requires
            old(self).wf(),
        ensures
            final(self).wf(),
            final(self).chain() == shifted(old(self).chain(), new_head),
            final(self).length == old(self).length,
            final(self).direction == old(self).direction,
            final(self).speed == old(self).speed,
            final(self).max_speed == old(self).max_speed,
            final(self).accumulator == old(self).accumulator,
            final(self).alive == old(self).alive,
            final(self).character_id == old(self).character_id,
            final(self).speed_boost == old(self).speed_boost,
            final(self).invincibility == old(self).invincibility,
    {
        let snapshot = &self.segments;
        let n = snapshot.len();
        let mut next: Vec<GridPosition> = Vec::new();
        next.push(new_head);
        let mut i: usize = 0;
        while i + 1 < n
            invariant
                n == snapshot@.len(),
                n >= 1,
                i + 1 <= n,
                next@ == seq![new_head] + snapshot@.take(i as int),
            decreases n - i,
        {
            next.push(snapshot[i]);
            i = i + 1;
            assert(next@ =~= seq![new_head] + snapshot@.take(i as int));
        }
        self.segments = next;
    }

    /// Appends `amount` segments at `tail` and raises the base speed by one
    /// growth step, up to `max_speed`.
    pub fn grow(&mut self, amount: u32, tail: GridPosition)
        requires
            old(self).wf(),
            old(self).length + amount <= MAX_LENGTH,
        ensures
            final(self).wf(),
            final(self).chain() == extended(old(self).chain(), tail, amount as nat),
            final(self).length == old(self).length + amount,
            final(self).speed == min_u64(
                old(self).speed + GROWTH_SPEED_STEP,
                old(self).max_speed as int,
            ),
            final(self).direction == old(self).direction,
            final(self).max_speed == old(self).max_speed,
            final(self).accumulator == old(self).accumulator,
            final(self).alive == old(self).alive,
            final(self).character_id == old(self).character_id,
            final(self).speed_boost == old(self).speed_boost,
            final(self).invincibility == old(self).invincibility,
    {
        let ghost start = self.segments@;
        assert(start == old(self).segments@);
        let mut k: u32 = 0;
        while k < amount
            invariant
                k <= amount,
                self.segments@ == extended(start, tail, k as nat),
                self.length == old(self).length,
                self.speed == old(self).speed,
                self.max_speed == old(self).max_speed,
                self.direction == old(self).direction,
                self.accumulator == old(self).accumulator,
                self.alive == old(self).alive,
                self.character_id == old(self).character_id,
                self.speed_boost == old(self).speed_boost,
                self.invincibility == old(self).invincibility,
            decreases amount - k,
        {
            self.segments.push(tail);
            k = k + 1;
            assert(self.segments@ =~= extended(start, tail, k as nat));
        }
        self.length = self.length + amount;
        let raised = self.speed + GROWTH_SPEED_STEP;
        self.speed = if raised < self.max_speed {
            raised
        } else {
            self.max_speed
        };
    }

    /// Counts the timed effects down by `dt_ms`, removing each that reaches zero.
    pub fn update_effects(&mut self, dt_ms: u64)
        requires
            old(self).wf(),
        ensures
            final(self).wf(),
            final(self).speed_boost == (match old(self).speed_boost {
                Some(e) => match countdown_spec(e.remaining_ms, dt_ms) {
                    Some(t) => Some(TimedEffect { percent: e.percent, remaining_ms: t }),
                    None => None,
                },
                None => None,
            }),
            final(self).invincibility == (match old(self).invincibility {
                Some(t) => countdown_spec(t, dt_ms),
                None => None,
            }),
            final(self).chain() == old(self).chain(),
            final(self).length == old(self).length,
            final(self).direction == old(self).direction,
            final(self).speed == old(self).speed,
            final(self).max_speed == old(self).max_speed,
            final(self).accumulator == old(self).accumulator,
            final(self).alive == old(self).alive,
            final(self).character_id == old(self).character_id,
    {
        self.speed_boost = match self.speed_boost {
            Some(e) => if e.remaining_ms > dt_ms {
                Some(TimedEffect { percent: e.percent, remaining_ms: e.remaining_ms - dt_ms })
            } else {
                None
            },
            None => None,
        };
        self.invincibility = match self.invincibility {
            Some(t) => if t > dt_ms {
                Some(t - dt_ms)
            } else {
                None
            },
            None => None,
        };
    }
}

} // verus!
