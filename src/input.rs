//! The bounded buffer between the host's directional input and the
//! movement engine.

use vstd::prelude::*;
use crate::grid::{Direction, opposite_spec};

verus! {

/// Most directions the buffer holds.
pub const MAX_BUFFERED: usize = 3;

/// Every this many milliseconds the oldest of several buffered entries is dropped.
pub const RETENTION_MS: u64 = 200;

/// Least time between two accepted inputs, in milliseconds.
pub const MIN_INPUT_INTERVAL_MS: u64 = 100;

/// `a + b`, or `u64::MAX` where that does not fit.
pub open spec fn sat_add(a: u64, b: u64) -> u64 {
    if a + b > u64::MAX { u64::MAX } else { (a + b) as u64 }
}

pub fn saturating_add_u64(a: u64, b: u64) -> (r: u64)
    ensures
        r == sat_add(a, b),
{
    if a > u64::MAX - b {
        u64::MAX
    } else {
        a + b
    }
}

/// What an offered direction came to.
#[derive(Clone, Copy, Debug, PartialEq, Eq, Structural)]
pub enum InputVerdict {
    /// Appended to the buffer.
    Buffered,
    /// Accepted, but equal to the newest buffered entry, so not stored twice.
    Duplicate,
    /// Rejected: the exact reverse of the direction it would follow.
    Reversal,
    /// Rejected: it came sooner than the minimum spacing after the last one.
    TooSoon,
}

/// Directions waiting for the next movement ticks, oldest first.
#[derive(Clone, Debug)]
pub struct InputBuffer {
    pub directions: Vec<Direction>,
    /// The direction the creature will face once every buffered entry is
    /// consumed; offers are checked for reversal against it.
    pub heading: Direction,
    /// Time since the last accepted input, in milliseconds.
    pub since_last_ms: u64,
    /// Time since the buffer was last trimmed, in milliseconds.
    pub timer_ms: u64,
}

/// The buffer as a value: its entries, heading and two clocks.
pub struct BufferModel {
    pub directions: Seq<Direction>,
    pub heading: Direction,
    pub since_last_ms: u64,
    pub timer_ms: u64,
}

/// Appends `d` unless it equals the newest entry, then keeps the newest
/// `MAX_BUFFERED` entries.
pub open spec fn pushed(s: Seq<Direction>, d: Direction) -> Seq<Direction> {
    if s.len() > 0 && s.last() == d {
        s
    } else if s.len() + 1 > MAX_BUFFERED {
        (s.push(d)).drop_first()
    } else {
        s.push(d)
    }
}

pub open spec fn verdict_spec(m: BufferModel, d: Direction) -> InputVerdict {
    if m.since_last_ms < MIN_INPUT_INTERVAL_MS {
        InputVerdict::TooSoon
    } else if d == opposite_spec(m.heading) {
        InputVerdict::Reversal
    } else if m.directions.len() > 0 && m.directions.last() == d {
        InputVerdict::Duplicate
    } else {
        InputVerdict::Buffered
    }
}

/// The buffer after `d` is offered.
pub open spec fn offer_spec(m: BufferModel, d: Direction) -> BufferModel {
    if m.since_last_ms < MIN_INPUT_INTERVAL_MS || d == opposite_spec(m.heading) {
        m
    } else {
        BufferModel {
            directions: pushed(m.directions, d),
            heading: d,
            since_last_ms: 0,
            timer_ms: m.timer_ms,
        }
    }
}

/// The buffer after `dt_ms` elapse.
pub open spec fn elapse_spec(m: BufferModel, dt_ms: u64) -> BufferModel {
    let t = sat_add(m.timer_ms, dt_ms);
    BufferModel {
        directions: if t >= RETENTION_MS && m.directions.len() > 1 {
            m.directions.drop_first()
        } else {
            m.directions
        },
        heading: m.heading,
        since_last_ms: sat_add(m.since_last_ms, dt_ms),
        timer_ms: if t >= RETENTION_MS { 0 } else { t },
    }
}

impl View for InputBuffer {
    type V = BufferModel;

    open spec fn view(&self) -> BufferModel {
        BufferModel {
            directions: self.directions@,
            heading: self.heading,
            since_last_ms: self.since_last_ms,
            timer_ms: self.timer_ms,
        }
    }
}

impl InputBuffer {
    pub open spec fn wf(&self) -> bool {
        self.directions@.len() <= MAX_BUFFERED
    }

    /// An empty buffer for a creature facing `heading`, ready for input.
    pub fn new(heading: Direction) -> (r: InputBuffer)
        ensures
            r.wf(),
            r@.directions.len() == 0,
            r@.heading == heading,
            r@.since_last_ms == MIN_INPUT_INTERVAL_MS,
            r@.timer_ms == 0,
    {
        InputBuffer {
            directions: Vec::new(),
            heading,
            since_last_ms: MIN_INPUT_INTERVAL_MS,
            timer_ms: 0,
        }
    }

    pub fn len(&self) -> (r: usize)
        ensures
            r == self@.directions.len(),
    {
        self.directions.len()
    }

    /// Offers a direction from the input layer. A reversal of the heading, or
    /// an input sooner than the minimum spacing, is rejected and leaves the
    /// buffer as it was; an accepted one equal to the newest entry is not
    /// stored again.
    pub fn offer(&mut self, d: Direction) -> (r: InputVerdict)
        requires
            old(self).wf(),
        ensures
            final(self).wf(),
            final(self)@ == offer_spec(old(self)@, d),
            r == verdict_spec(old(self)@, d),
    {
        if self.since_last_ms < MIN_INPUT_INTERVAL_MS {
            return InputVerdict::TooSoon;
        }
        if d == self.heading.opposite() {
            return InputVerdict::Reversal;
        }
        self.heading = d;
        self.since_last_ms = 0;
        let n = self.directions.len();
        if n > 0 && self.directions[n - 1] == d {
            return InputVerdict::Duplicate;
        }
        self.directions.push(d);
        if self.directions.len() > MAX_BUFFERED {
            self.directions.remove(0);
        }
        proof {
            assert(self.directions@ =~= pushed(old(self)@.directions, d));
        }
        InputVerdict::Buffered
    }

    /// Advances the buffer's clocks; once per retention period the oldest of
    /// two or more entries is dropped.
    pub fn elapse(&mut self, dt_ms: u64)
        requires
            old(self).wf(),
        ensures
            final(self).wf(),
            final(self)@ == elapse_spec(old(self)@, dt_ms),
    {
        self.since_last_ms = saturating_add_u64(self.since_last_ms, dt_ms);
        let t = saturating_add_u64(self.timer_ms, dt_ms);
        if t >= RETENTION_MS {
            self.timer_ms = 0;
            if self.directions.len() > 1 {
                self.directions.remove(0);
            }
        } else {
            self.timer_ms = t;
        }
    }

    /// Takes the oldest buffered direction, if any.
    pub fn take_next(&mut self) -> (r: Option<Direction>)
        requires
            old(self).wf(),
        ensures
            final(self).wf(),
            old(self)@.directions.len() == 0 ==> r is None && final(self)@ == old(self)@,
            old(self)@.directions.len() > 0 ==> r == Some(old(self)@.directions[0])
                && final(self)@.directions == old(self)@.directions.drop_first(),
            final(self)@.heading == old(self)@.heading,
            final(self)@.since_last_ms == old(self)@.since_last_ms,
            final(self)@.timer_ms == old(self)@.timer_ms,
    {
        if self.directions.len() == 0 {
            None
        } else {
            let d = self.directions.remove(0);
            proof {
                assert(self.directions@ =~= old(self)@.directions.drop_first());
            }
            Some(d)
        }
    }
}

/// Offering the same direction twice, with no tick and no time between,
/// stores it at most once: the entries are those after a single offer.
pub proof fn lemma_offer_twice_no_duplicate(m: BufferModel, d: Direction)
    requires
        m.directions.len() <= MAX_BUFFERED,
    ensures
        offer_spec(offer_spec(m, d), d).directions == offer_spec(m, d).directions,
{
    let once = offer_spec(m, d);
    if m.since_last_ms < MIN_INPUT_INTERVAL_MS || d == opposite_spec(m.heading) {
    } else {
        let s = m.directions;
        if s.len() > 0 && s.last() == d {
        } else if s.len() + 1 > MAX_BUFFERED {
            assert(once.directions.last() == d);
        } else {
            assert(once.directions.last() == d);
        }
    }
}

} // verus!
