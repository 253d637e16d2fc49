//! The direction state and the arbitration rule.
use vstd::prelude::*;

verus! {

/// Which way the motor turns, or that it stands still.
#[derive(Debug, Clone, Copy, PartialEq, Eq, Structural)]
pub enum Direction {
    Up,
    Down,
    Stop,
}

/// The input line whose edge woke a handler.
#[derive(Debug, Clone, Copy, PartialEq, Eq, Structural)]
pub enum Line {
    Up,
    Down,
}

/// Levels of the two motor-driver lines; `true` is high.
#[derive(Debug, Clone, Copy, PartialEq, Eq, Structural)]
pub struct MotorOutputs {
    pub clockwise: bool,
    pub counter_clockwise: bool,
}

/// The direction that pressing `line` asks for.
pub open spec fn requested(line: Line) -> Direction {
    match line {
        Line::Up => Direction::Up,
        Line::Down => Direction::Down,
    }
}

/// The arbitration table: from standstill a press starts motion its way,
/// the opposite button reverses, the same button again changes nothing.
pub open spec fn next_direction(current: Direction, trigger: Line) -> Direction {
    match (current, trigger) {
        (Direction::Stop, Line::Up) => Direction::Up,
        (Direction::Stop, Line::Down) => Direction::Down,
        (Direction::Up, Line::Up) => Direction::Up,
        (Direction::Up, Line::Down) => Direction::Down,
        (Direction::Down, Line::Down) => Direction::Down,
        (Direction::Down, Line::Up) => Direction::Up,
    }
}

/// The output levels that drive the motor in direction `d`.
pub open spec fn levels_of(d: Direction) -> MotorOutputs {
    match d {
        Direction::Up => MotorOutputs { clockwise: true, counter_clockwise: false },
        Direction::Down => MotorOutputs { clockwise: false, counter_clockwise: true },
        Direction::Stop => MotorOutputs { clockwise: false, counter_clockwise: false },
    }
}

impl MotorOutputs {
    /// The H-bridge rule: the two lines are never high together.
    pub open spec fn is_safe(self) -> bool {
        !(self.clockwise && self.counter_clockwise)
    }

    /// Both lines low: the motor is de-energized.
    pub fn off() -> (r: MotorOutputs)
        ensures
            r == levels_of(Direction::Stop),
    {
        MotorOutputs { clockwise: false, counter_clockwise: false }
    }

    /// The levels that drive the motor in direction `d`.
    pub fn for_direction(d: Direction) -> (r: MotorOutputs)
        ensures
            r == levels_of(d),
            r.is_safe(),
    {
        match d {
            Direction::Up => MotorOutputs { clockwise: true, counter_clockwise: false },
            Direction::Down => MotorOutputs { clockwise: false, counter_clockwise: true },
            Direction::Stop => MotorOutputs::off(),
        }
    }

    /// Whether the levels obey the H-bridge rule.
    pub fn safe(&self) -> (r: bool)
        ensures
            r == self.is_safe(),
    {
        !(self.clockwise && self.counter_clockwise)
    }
}

/// Decides the next direction and the clockwise and counter-clockwise
/// levels after an edge on `trigger` while the motor is in `current`.
pub fn arbitrate(current: Direction, trigger: Line) -> (r: (Direction, bool, bool))
    ensures
        r.0 == next_direction(current, trigger),
        r.1 == levels_of(r.0).clockwise,
        r.2 == levels_of(r.0).counter_clockwise,
        !(r.1 && r.2),
{
    let next = match (current, trigger) {
        (Direction::Stop, Line::Up) => Direction::Up,
        (Direction::Stop, Line::Down) => Direction::Down,
        (Direction::Up, Line::Up) => Direction::Up,
        (Direction::Up, Line::Down) => Direction::Down,
        (Direction::Down, Line::Down) => Direction::Down,
        (Direction::Down, Line::Up) => Direction::Up,
    };
    let levels = MotorOutputs::for_direction(next);
    (next, levels.clockwise, levels.counter_clockwise)
}

/// Whatever the current direction, a press leaves the motor turning the
/// way that press asks for, and the new levels never have both lines high.
pub proof fn lemma_arbitrate_total_and_safe(current: Direction, trigger: Line)
    ensures
        next_direction(current, trigger) == requested(trigger),
        next_direction(current, trigger) != Direction::Stop,
        levels_of(next_direction(current, trigger)).is_safe(),
{
}

/// Pressing the button of the direction already in force changes neither
/// the direction nor the output levels.
pub proof fn lemma_same_button_is_noop(trigger: Line)
    ensures
        next_direction(requested(trigger), trigger) == requested(trigger),
        levels_of(next_direction(requested(trigger), trigger)) == levels_of(requested(trigger)),
{
}

} // verus!
