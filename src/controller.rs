//! The state that both edge handlers share, and the handler itself.
use vstd::prelude::*;
use crate::direction::{Direction, Line, MotorOutputs, arbitrate, levels_of, next_direction, requested, lemma_arbitrate_total_and_safe};
use crate::actions::{Action, Board, apply_spec, run_spec, safe_throughout, drive_plan, drive_plan_spec, lemma_drive_plan_safe};

verus! {

/// The shared state as a value: the direction and the two output levels.
#[derive(Debug, Clone, Copy, PartialEq, Eq, Structural)]
pub struct ControllerState {
    pub direction: Direction,
    pub outputs: MotorOutputs,
}

impl ControllerState {
    /// The output levels are those of the direction.
    pub open spec fn is_consistent(self) -> bool {
        self.outputs == levels_of(self.direction)
    }
}

/// The shared state after a handler for `line` has run.
pub open spec fn step(s: ControllerState, line: Line) -> ControllerState {
    ControllerState {
        direction: next_direction(s.direction, line),
        outputs: levels_of(next_direction(s.direction, line)),
    }
}

/// The shared state after the handlers for `events` have run one after the
/// other, in that order.
pub open spec fn run_events(s: ControllerState, events: Seq<Line>) -> ControllerState
    decreases events.len(),
{
    if events.len() == 0 {
        s
    } else {
        step(run_events(s, events.drop_last()), events.last())
    }
}

/// What the handler for `line` hands to the pins: clear the line's pending
/// flag, then drive the motor lines to their new levels.
pub open spec fn handler_actions(s: ControllerState, line: Line) -> Seq<Action> {
    seq![Action::ClearPending(line)] + drive_plan_spec(levels_of(next_direction(s.direction, line)))
}

/// The direction and the output levels, which only the handlers change,
/// each as one step.
pub struct Controller {
    direction: Direction,
    outputs: MotorOutputs,
}

impl View for Controller {
    type V = ControllerState;

    closed spec fn view(&self) -> ControllerState {
        ControllerState { direction: self.direction, outputs: self.outputs }
    }
}

impl Controller {
    pub open spec fn wf(&self) -> bool {
        self@.is_consistent()
    }

    /// The state at power-on: stopped, both motor lines low.
    pub fn new() -> (r: Controller)
        ensures
            r.wf(),
            r@.direction == Direction::Stop,
            r@.outputs == levels_of(Direction::Stop),
    {
        Controller { direction: Direction::Stop, outputs: MotorOutputs::off() }
    }

    /// The current direction.
    pub fn direction(&self) -> (r: Direction)
        ensures
            r == self@.direction,
    {
        self.direction
    }

    /// The current output levels.
    pub fn outputs(&self) -> (r: MotorOutputs)
        ensures
            r == self@.outputs,
    {
        self.outputs
    }

    /// Handles an edge on `line`: applies the arbitration rule to the
    /// shared state and returns what the pins must do, in order.
    pub fn handle_edge(&mut self, line: Line) -> (r: [Action; 3])
        requires
            old(self).wf(),
        ensures
            final(self).wf(),
            final(self)@ == step(old(self)@, line),
            r@ == handler_actions(old(self)@, line),
    {
        let (next, clockwise, counter_clockwise) = arbitrate(self.direction, line);
        let levels = MotorOutputs { clockwise, counter_clockwise };
        self.direction = next;
        self.outputs = levels;
        let plan = drive_plan(levels);
        let r = [Action::ClearPending(line), plan[0], plan[1]];
        assert(r@ =~= handler_actions(old(self)@, line));
        r
    }

    /// Runs the handlers for `events` one after the other.
    pub fn handle_all(&mut self, events: &[Line])
        requires
            old(self).wf(),
        ensures
            final(self).wf(),
            final(self)@ == run_events(old(self)@, events@),
    {
        let ghost start = self@;
        let mut i: usize = 0;
        while i < events.len()
            invariant
                i <= events.len(),
                self.wf(),
                self@ == run_events(start, events@.take(i as int)),
            decreases events.len() - i,
        {
            proof {
                assert(events@.take(i + 1).drop_last() =~= events@.take(i as int));
            }
            let _ = self.handle_edge(events[i]);
            i = i + 1;
        }
        proof {
            assert(events@.take(events.len() as int) =~= events@);
        }
    }

    /// De-energizes the motor after a fatal fault: the state becomes
    /// stopped, and the returned writes take both motor lines low.
    pub fn halt(&mut self) -> (r: [Action; 2])
        requires
            old(self).wf(),
        ensures
            final(self).wf(),
            final(self)@.direction == Direction::Stop,
            final(self)@.outputs == levels_of(Direction::Stop),
            r@ == drive_plan_spec(levels_of(Direction::Stop)),
    {
        self.direction = Direction::Stop;
        self.outputs = MotorOutputs::off();
        drive_plan(self.outputs)
    }
}

proof fn lemma_run_prepend(b: Board, a: Action, rest: Seq<Action>)
    ensures
        run_spec(b, seq![a] + rest) == run_spec(apply_spec(b, a), rest),
    decreases rest.len(),
{
    if rest.len() == 0 {
        assert(seq![a] + rest =~= seq![a]);
        assert(seq![a].drop_last() =~= Seq::<Action>::empty());
        assert(run_spec(b, Seq::<Action>::empty()) == b);
        assert(run_spec(apply_spec(b, a), rest) == apply_spec(b, a));
    } else {
        assert((seq![a] + rest).last() == rest.last());
        assert((seq![a] + rest).drop_last() =~= seq![a] + rest.drop_last());
        lemma_run_prepend(b, a, rest.drop_last());
    }
}

proof fn lemma_handler_run(b: Board, s: ControllerState, line: Line)
    requires
        s.is_consistent(),
        b.outputs == s.outputs,
    ensures
        run_spec(b, handler_actions(s, line)).outputs == step(s, line).outputs,
        !run_spec(b, handler_actions(s, line)).is_pending(line),
        line == Line::Up ==> run_spec(b, handler_actions(s, line)).pending_down == b.pending_down,
        line == Line::Down ==> run_spec(b, handler_actions(s, line)).pending_up == b.pending_up,
        safe_throughout(b, handler_actions(s, line)),
{
    let to = levels_of(next_direction(s.direction, line));
    let plan = drive_plan_spec(to);
    let acts = handler_actions(s, line);
    let b1 = apply_spec(b, Action::ClearPending(line));
    lemma_arbitrate_total_and_safe(s.direction, line);
    lemma_drive_plan_safe(b1, to);
    lemma_run_prepend(b, Action::ClearPending(line), plan);
    assert forall|i: int| 0 <= i <= acts.len() implies (#[trigger] run_spec(b, acts.take(i))).outputs.is_safe() by {
        if i == 0 {
            assert(acts.take(0) =~= Seq::<Action>::empty());
        } else {
            assert(acts.take(i) =~= seq![Action::ClearPending(line)] + plan.take(i - 1));
            lemma_run_prepend(b, Action::ClearPending(line), plan.take(i - 1));
            assert(run_spec(b1, plan.take(i - 1)).outputs.is_safe());
        }
    }
}

/// After a handler's actions have run on the pins, the pending flag of its
/// own line is clear, the other line's flag is as it was, and the motor
/// lines stand at the new levels.
pub proof fn lemma_handler_clears_flag(b: Board, s: ControllerState, line: Line)
    requires
        s.is_consistent(),
        b.outputs == s.outputs,
    ensures
        !run_spec(b, handler_actions(s, line)).is_pending(line),
        line == Line::Up ==> run_spec(b, handler_actions(s, line)).pending_down == b.pending_down,
        line == Line::Down ==> run_spec(b, handler_actions(s, line)).pending_up == b.pending_up,
        run_spec(b, handler_actions(s, line)).outputs == step(s, line).outputs,
{
    lemma_handler_run(b, s, line);
}

/// No handler, a reversal included, ever has both motor lines high: at
/// every point of its run, the line that ends low is low before or when the
/// line that ends high goes high.
pub proof fn lemma_handler_never_both_high(b: Board, s: ControllerState, line: Line)
    requires
        s.is_consistent(),
        b.outputs == s.outputs,
    ensures
        safe_throughout(b, handler_actions(s, line)),
{
    lemma_handler_run(b, s, line);
}

/// Handlers that run one after the other lose no update: the final state is
/// the arbitration rule applied, for the event that ran last, to the state
/// the earlier ones left, and the motor then turns the way that event asks.
pub proof fn lemma_last_event_wins(s: ControllerState, events: Seq<Line>)
    requires
        events.len() > 0,
    ensures
        run_events(s, events) == step(run_events(s, events.drop_last()), events.last()),
        run_events(s, events).direction == requested(events.last()),
        run_events(s, events).is_consistent(),
{
    lemma_arbitrate_total_and_safe(run_events(s, events.drop_last()).direction, events.last());
}

/// Pressing the button of the direction already in force leaves the
/// shared state as it was.
pub proof fn lemma_repeat_press_is_noop(s: ControllerState, line: Line)
    requires
        s.is_consistent(),
        s.direction == requested(line),
    ensures
        step(s, line) == s,
{
}

} // verus!
