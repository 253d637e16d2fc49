//! A per-line minimum-interval gate, so that one press of a bouncing
//! switch is taken as one edge.
use vstd::prelude::*;
use crate::direction::Line;

verus! {

/// Whether an edge at `now` is far enough from the last accepted edge of
/// the same line, `last`, for a gate of width `window`.
pub open spec fn is_accepted(window: u64, last: Option<u64>, now: u64) -> bool {
    match last {
        Option::None => true,
        Option::Some(t) => now as int - t as int >= window as int,
    }
}

/// The time of the last accepted edge of each line, in ticks of a clock
/// that the caller reads.
#[derive(Debug, Clone, Copy, PartialEq, Eq, Structural)]
pub struct Debouncer {
    pub window: u64,
    pub last_up: Option<u64>,
    pub last_down: Option<u64>,
}

impl Debouncer {
    /// The time of the last accepted edge of `line`.
    pub open spec fn last_of(self, line: Line) -> Option<u64> {
        match line {
            Line::Up => self.last_up,
            Line::Down => self.last_down,
        }
    }

    /// A gate of width `window` that has accepted no edge yet.
    pub fn new(window: u64) -> (r: Debouncer)
        ensures
            r.window == window,
            r.last_up.is_none(),
            r.last_down.is_none(),
    {
        Debouncer { window, last_up: None, last_down: None }
    }

    /// Decides whether an edge on `line` at time `now` counts: it does when
    /// that line has no accepted edge yet, or when at least `window` ticks
    /// have passed since its last one. A counted edge becomes the line's
    /// last; the other line is left alone.
    pub fn accept(&mut self, line: Line, now: u64) -> (r: bool)
        ensures
            r == is_accepted(old(self).window, old(self).last_of(line), now),
            final(self).window == old(self).window,
            final(self).last_of(line) == (if r { Some(now) } else { old(self).last_of(line) }),
            line == Line::Up ==> final(self).last_down == old(self).last_down,
            line == Line::Down ==> final(self).last_up == old(self).last_up,
    {
        let last = match line {
            Line::Up => self.last_up,
            Line::Down => self.last_down,
        };
        let r = match last {
            None => true,
            Some(t) => now >= t && now - t >= self.window,
        };
        if r {
            match line {
                Line::Up => self.last_up = Some(now),
                Line::Down => self.last_down = Some(now),
            }
        }
        r
    }
}

} // verus!
