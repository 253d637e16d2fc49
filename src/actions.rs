//! What a handler asks of the pins, and a model of the pins that it acts on.
use vstd::prelude::*;
use crate::direction::{Line, MotorOutputs};

verus! {

/// One of the two motor-driver lines.
#[derive(Debug, Clone, Copy, PartialEq, Eq, Structural)]
pub enum Output {
    Clockwise,
    CounterClockwise,
}

/// One step that a handler hands to the pins, in order.
#[derive(Debug, Clone, Copy, PartialEq, Eq, Structural)]
pub enum Action {
    /// Clear the pending interrupt flag of a line.
    ClearPending(Line),
    /// Drive a motor line high (`true`) or low (`false`).
    Drive(Output, bool),
}

/// The pins as the handlers see them: the two pending flags and the two
/// motor-line levels.
#[derive(Debug, Clone, Copy, PartialEq, Eq, Structural)]
pub struct Board {
    pub pending_up: bool,
    pub pending_down: bool,
    pub outputs: MotorOutputs,
}

impl Board {
    /// Whether the interrupt of `line` is pending.
    pub open spec fn is_pending(self, line: Line) -> bool {
        match line {
            Line::Up => self.pending_up,
            Line::Down => self.pending_down,
        }
    }
}

/// The board after one action.
pub open spec fn apply_spec(b: Board, a: Action) -> Board {
    match a {
        Action::ClearPending(Line::Up) => Board { pending_up: false, ..b },
        Action::ClearPending(Line::Down) => Board { pending_down: false, ..b },
        Action::Drive(Output::Clockwise, high) => Board {
            outputs: MotorOutputs { clockwise: high, ..b.outputs },
            ..b
        },
        Action::Drive(Output::CounterClockwise, high) => Board {
            outputs: MotorOutputs { counter_clockwise: high, ..b.outputs },
            ..b
        },
    }
}

/// The board after the actions, in order.
pub open spec fn run_spec(b: Board, acts: Seq<Action>) -> Board
    decreases acts.len(),
{
    if acts.len() == 0 {
        b
    } else {
        apply_spec(run_spec(b, acts.drop_last()), acts.last())
    }
}

/// The board stays within the H-bridge rule at every point of the run:
/// before the first action, between any two, and after the last.
pub open spec fn safe_throughout(b: Board, acts: Seq<Action>) -> bool {
    forall|i: int| 0 <= i <= acts.len() ==> (#[trigger] run_spec(b, acts.take(i))).outputs.is_safe()
}

/// The writes that take the motor lines to `to`: the line that ends low is
/// written first, so the line that ends high rises only after the other is
/// low.
pub open spec fn drive_plan_spec(to: MotorOutputs) -> Seq<Action> {
    if to.clockwise {
        seq![Action::Drive(Output::CounterClockwise, false), Action::Drive(Output::Clockwise, true)]
    } else {
        seq![Action::Drive(Output::Clockwise, false), Action::Drive(Output::CounterClockwise, to.counter_clockwise)]
    }
}

impl Board {
    /// A board with no interrupt pending and both motor lines low.
    pub fn new() -> (r: Board)
        ensures
            !r.pending_up,
            !r.pending_down,
            !r.outputs.clockwise,
            !r.outputs.counter_clockwise,
    {
        Board {
            pending_up: false,
            pending_down: false,
            outputs: MotorOutputs::off(),
        }
    }

    /// Records an edge on `line`: its interrupt becomes pending.
    pub fn raise(&mut self, line: Line)
        ensures
            final(self).is_pending(line),
            final(self).outputs == old(self).outputs,
            line == Line::Up ==> final(self).pending_down == old(self).pending_down,
            line == Line::Down ==> final(self).pending_up == old(self).pending_up,
    {
        match line {
            Line::Up => self.pending_up = true,
            Line::Down => self.pending_down = true,
        }
    }

    /// Performs one action.
    pub fn apply(&mut self, a: Action)
        ensures
            *final(self) == apply_spec(*old(self), a),
    {
        match a {
            Action::ClearPending(Line::Up) => self.pending_up = false,
            Action::ClearPending(Line::Down) => self.pending_down = false,
            Action::Drive(Output::Clockwise, high) => self.outputs.clockwise = high,
            Action::Drive(Output::CounterClockwise, high) => self.outputs.counter_clockwise = high,
        }
    }

    /// Performs the actions in order.
    pub fn apply_all(&mut self, acts: &[Action])
        ensures
            *final(self) == run_spec(*old(self), acts@),
    {
        let ghost start = *self;
        let mut i: usize = 0;
        while i < acts.len()
            invariant
                i <= acts.len(),
                *self == run_spec(start, acts@.take(i as int)),
            decreases acts.len() - i,
        {
            proof {
                assert(acts@.take(i + 1).drop_last() =~= acts@.take(i as int));
            }
            self.apply(acts[i]);
            i = i + 1;
        }
        proof {
            assert(acts@.take(acts.len() as int) =~= acts@);
        }
    }
}

/// The writes that take the motor lines to `to`, line that ends low first.
pub fn drive_plan(to: MotorOutputs) -> (r: [Action; 2])
    ensures
        r@ == drive_plan_spec(to),
{
    if to.clockwise {
        let r = [Action::Drive(Output::CounterClockwise, false), Action::Drive(Output::Clockwise, true)];
        assert(r@ =~= drive_plan_spec(to));
        r
    } else {
        let r = [Action::Drive(Output::Clockwise, false), Action::Drive(Output::CounterClockwise, to.counter_clockwise)];
        assert(r@ =~= drive_plan_spec(to));
        r
    }
}

/// Running a drive plan from levels that obey the H-bridge rule to levels
/// that obey it ends at the target levels and obeys the rule at every
/// step: the line that ends low is low before the other line goes high.
pub proof fn lemma_drive_plan_safe(b: Board, to: MotorOutputs)
    requires
        b.outputs.is_safe(),
        to.is_safe(),
    ensures
        run_spec(b, drive_plan_spec(to)).outputs == to,
        run_spec(b, drive_plan_spec(to)).pending_up == b.pending_up,
        run_spec(b, drive_plan_spec(to)).pending_down == b.pending_down,
        safe_throughout(b, drive_plan_spec(to)),
{
    let p = drive_plan_spec(to);
    let b1 = apply_spec(b, p[0]);
    assert(p.take(0) =~= Seq::<Action>::empty());
    assert(p.take(1).drop_last() =~= p.take(0));
    assert(p.take(2).drop_last() =~= p.take(1));
    assert(p.take(2) =~= p);
    assert(run_spec(b, p.take(0)) == b);
    assert(run_spec(b, p.take(1)) == b1);
    assert(run_spec(b, p) == apply_spec(b1, p[1]));
    assert forall|i: int| 0 <= i <= p.len() implies (#[trigger] run_spec(b, p.take(i))).outputs.is_safe() by {
        if i == 2 {
            assert(p.take(i) == p);
        }
    }
}

} // verus!
