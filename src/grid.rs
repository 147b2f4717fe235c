//! Grid coordinates, cardinal directions and the bounds/wrap policy of a level.

use vstd::prelude::*;

verus! {

/// A cell of the grid.
#[derive(Clone, Copy, Debug, PartialEq, Eq, Structural)]
pub struct GridPosition {
    pub x: i32,
    pub y: i32,
}

/// One of the four cardinal unit vectors.
#[derive(Clone, Copy, Debug, PartialEq, Eq, Structural)]
pub enum Direction {
    Up,
    Down,
    Left,
    Right,
}

/// Width and height of a level's grid, in cells.
#[derive(Clone, Copy, Debug, PartialEq, Eq, Structural)]
pub struct GridBounds {
    pub width: u32,
    pub height: u32,
}

/// Largest width or height a grid may have.
pub const MAX_GRID_SIDE: u32 = 1_000_000;

/// Horizontal component of a direction's unit vector.
pub open spec fn dx(d: Direction) -> int {
    match d {
        Direction::Left => -1,
        Direction::Right => 1,
        _ => 0,
    }
}

/// Vertical component of a direction's unit vector (y grows upwards).
pub open spec fn dy(d: Direction) -> int {
    match d {
        Direction::Down => -1,
        Direction::Up => 1,
        _ => 0,
    }
}

/// The exact reverse of a direction.
pub open spec fn opposite_spec(d: Direction) -> Direction {
    match d {
        Direction::Up => Direction::Down,
        Direction::Down => Direction::Up,
        Direction::Left => Direction::Right,
        Direction::Right => Direction::Left,
    }
}

pub open spec fn abs_int(v: int) -> int {
    if v < 0 { -v } else { v }
}

/// Grid (Manhattan) distance between two cells.
pub open spec fn manhattan_spec(a: GridPosition, b: GridPosition) -> int {
    abs_int(a.x - b.x) + abs_int(a.y - b.y)
}

/// The cell one step from `p` in direction `d`.
pub open spec fn step_spec(p: GridPosition, d: Direction) -> (int, int) {
    (p.x + dx(d), p.y + dy(d))
}

impl GridBounds {
    pub open spec fn wf(self) -> bool {
        1 <= self.width <= MAX_GRID_SIDE && 1 <= self.height <= MAX_GRID_SIDE
    }

    pub open spec fn contains_spec(self, x: int, y: int) -> bool {
        0 <= x < self.width && 0 <= y < self.height
    }

    /// Whether a cell lies inside the grid.
    pub fn contains(&self, p: GridPosition) -> (r: bool)
        ensures
            r == self.contains_spec(p.x as int, p.y as int),
    {
        0 <= p.x && (p.x as i64) < (self.width as i64) && 0 <= p.y && (p.y as i64) < (
        self.height as i64)
    }
}

/// Maps a coordinate that lies at most one side length outside `[0, n)` onto
/// the opposite edge; this is `c` modulo `n` on that range.
pub open spec fn wrap_spec(c: int, n: int) -> int {
    if c < 0 {
        c + n
    } else if c >= n {
        c - n
    } else {
        c
    }
}

/// `wrap_spec` agrees with the Euclidean remainder on the range it is used on.
pub proof fn lemma_wrap_is_modulo(c: int, n: int)
    requires
        n > 0,
        -n <= c < 2 * n,
    ensures
        wrap_spec(c, n) == c % n,
        0 <= wrap_spec(c, n) < n,
{
    if c < 0 {
        vstd::arithmetic::div_mod::lemma_small_mod((c + n) as nat, n as nat);
        vstd::arithmetic::div_mod::lemma_mod_add_multiples_vanish(c, n);
    } else if c >= n {
        vstd::arithmetic::div_mod::lemma_small_mod((c - n) as nat, n as nat);
        vstd::arithmetic::div_mod::lemma_mod_sub_multiples_vanish(c, n);
    } else {
        vstd::arithmetic::div_mod::lemma_small_mod(c as nat, n as nat);
    }
}

impl Direction {
    /// The exact reverse of this direction.
    pub fn opposite(&self) -> (r: Direction)
        ensures
            r == opposite_spec(*self),
    {
        match self {
            Direction::Up => Direction::Down,
            Direction::Down => Direction::Up,
            Direction::Left => Direction::Right,
            Direction::Right => Direction::Left,
        }
    }

    /// Whether `next` may follow this direction: anything but the exact reverse.
    pub fn is_valid_change(&self, next: Direction) -> (r: bool)
        ensures
            r == (next != opposite_spec(*self)),
    {
        next != self.opposite()
    }
}

impl GridPosition {
    pub fn new(x: i32, y: i32) -> (r: GridPosition)
        ensures
            r.x == x && r.y == y,
    {
        GridPosition { x, y }
    }

    /// Grid (Manhattan) distance to another cell.
    pub fn manhattan_distance(&self, other: &GridPosition) -> (r: u64)
        ensures
            r == manhattan_spec(*self, *other),
    {
        let ddx: i64 = self.x as i64 - other.x as i64;
        let ddy: i64 = self.y as i64 - other.y as i64;
        let ax: u64 = if ddx < 0 { (-ddx) as u64 } else { ddx as u64 };
        let ay: u64 = if ddy < 0 { (-ddy) as u64 } else { ddy as u64 };
        ax + ay
    }

    /// Whether two cells share an edge.
    pub fn is_adjacent(&self, other: &GridPosition) -> (r: bool)
        ensures
            r == (manhattan_spec(*self, *other) == 1),
    {
        self.manhattan_distance(other) == 1
    }

    /// The cell one step away in direction `d`, or `None` where that leaves
    /// the range of `i32`.
    pub fn stepped(&self, d: Direction) -> (r: Option<GridPosition>)
        ensures
            r is Some <==> (i32::MIN <= step_spec(*self, d).0 <= i32::MAX && i32::MIN
                <= step_spec(*self, d).1 <= i32::MAX),
            r matches Some(q) ==> q.x == step_spec(*self, d).0 && q.y == step_spec(*self, d).1,
    {
        match d {
            Direction::Up => if self.y < i32::MAX {
                Some(GridPosition { x: self.x, y: self.y + 1 })
            } else {
                None
            },
            Direction::Down => if self.y > i32::MIN {
                Some(GridPosition { x: self.x, y: self.y - 1 })
            } else {
                None
            },
            Direction::Left => if self.x > i32::MIN {
                Some(GridPosition { x: self.x - 1, y: self.y })
            } else {
                None
            },
            Direction::Right => if self.x < i32::MAX {
                Some(GridPosition { x: self.x + 1, y: self.y })
            } else {
                None
            },
        }
    }

    /// This cell with each coordinate at most one side length outside the
    /// grid mapped onto the opposite edge.
    pub fn wrapped(&self, b: &GridBounds) -> (r: GridPosition)
        requires
            b.wf(),
            -(b.width as int) <= self.x < 2 * b.width,
            -(b.height as int) <= self.y < 2 * b.height,
        ensures
            r.x == wrap_spec(self.x as int, b.width as int),
            r.y == wrap_spec(self.y as int, b.height as int),
            b.contains_spec(r.x as int, r.y as int),
    {
        let w = b.width as i32;
        let h = b.height as i32;
        let x = if self.x < 0 {
            self.x + w
        } else if self.x >= w {
            self.x - w
        } else {
            self.x
        };
        let y = if self.y < 0 {
            self.y + h
        } else if self.y >= h {
            self.y - h
        } else {
            self.y
        };
        GridPosition { x, y }
    }
}

} // verus!
