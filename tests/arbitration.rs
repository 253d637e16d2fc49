use motor_direction::actions::{drive_plan, Action, Board, Output};
use motor_direction::controller::Controller;
use motor_direction::debounce::Debouncer;
use motor_direction::direction::{arbitrate, Direction, Line, MotorOutputs};

const DIRECTIONS: [Direction; 3] = [Direction::Stop, Direction::Up, Direction::Down];
const LINES: [Line; 2] = [Line::Up, Line::Down];

fn controller_in(d: Direction) -> Controller {
    let mut c = Controller::new();
    match d {
        Direction::Stop => {}
        Direction::Up => {
            c.handle_edge(Line::Up);
        }
        Direction::Down => {
            c.handle_edge(Line::Down);
        }
    }
    assert_eq!(c.direction(), d);
    c
}

fn board_with(outputs: MotorOutputs) -> Board {
    let mut b = Board::new();
    b.outputs = outputs;
    b
}

#[test]
fn arbitrate_never_drives_both_lines_high() {
    for d in DIRECTIONS {
        for l in LINES {
            let (next, cw, ccw) = arbitrate(d, l);
            assert!(!(cw && ccw));
            assert!(matches!(next, Direction::Up | Direction::Down | Direction::Stop));
        }
    }
}

#[test]
fn arbitrate_from_stop() {
    assert_eq!(arbitrate(Direction::Stop, Line::Up), (Direction::Up, true, false));
    assert_eq!(arbitrate(Direction::Stop, Line::Down), (Direction::Down, false, true));
}

#[test]
fn arbitrate_same_button_is_noop() {
    assert_eq!(arbitrate(Direction::Up, Line::Up), (Direction::Up, true, false));
    assert_eq!(arbitrate(Direction::Down, Line::Down), (Direction::Down, false, true));

    let mut c = controller_in(Direction::Up);
    let before = c.outputs();
    c.handle_edge(Line::Up);
    assert_eq!(c.direction(), Direction::Up);
    assert_eq!(c.outputs(), before);
}

#[test]
fn arbitrate_opposite_button_reverses() {
    assert_eq!(arbitrate(Direction::Up, Line::Down), (Direction::Down, false, true));
    assert_eq!(arbitrate(Direction::Down, Line::Up), (Direction::Up, true, false));
}

#[test]
fn reversal_never_has_both_lines_high() {
    for (from, line) in [(Direction::Up, Line::Down), (Direction::Down, Line::Up)] {
        let mut c = controller_in(from);
        let mut b = board_with(c.outputs());
        let acts = c.handle_edge(line);
        for a in acts.iter() {
            b.apply(*a);
            assert!(b.outputs.safe());
        }
        assert_eq!(b.outputs, c.outputs());
    }
}

#[test]
fn reversal_lowers_old_line_first() {
    let mut c = controller_in(Direction::Up);
    let acts = c.handle_edge(Line::Down);
    assert_eq!(
        acts,
        [
            Action::ClearPending(Line::Down),
            Action::Drive(Output::Clockwise, false),
            Action::Drive(Output::CounterClockwise, true),
        ]
    );
}

#[test]
fn handler_clears_its_pending_flag() {
    for d in DIRECTIONS {
        for l in LINES {
            let mut c = controller_in(d);
            let mut b = board_with(c.outputs());
            b.raise(Line::Up);
            b.raise(Line::Down);
            let acts = c.handle_edge(l);
            assert_eq!(acts[0], Action::ClearPending(l));
            b.apply_all(&acts);
            match l {
                Line::Up => assert!(!b.pending_up && b.pending_down),
                Line::Down => assert!(b.pending_up && !b.pending_down),
            }
        }
    }
}

#[test]
fn serial_handlers_lose_no_update() {
    let mut first = Controller::new();
    first.handle_all(&[Line::Up, Line::Down]);
    assert_eq!(first.direction(), Direction::Down);

    let mut second = Controller::new();
    second.handle_all(&[Line::Down, Line::Up]);
    assert_eq!(second.direction(), Direction::Up);
    assert_eq!(second.outputs(), MotorOutputs { clockwise: true, counter_clockwise: false });
}

#[test]
fn end_to_end_edge_sequence() {
    let mut c = Controller::new();
    let mut b = Board::new();
    let events = [Line::Up, Line::Up, Line::Down, Line::Down, Line::Up];
    let expected = [Direction::Up, Direction::Up, Direction::Down, Direction::Down, Direction::Up];
    for (l, want) in events.iter().zip(expected.iter()) {
        b.raise(*l);
        let acts = c.handle_edge(*l);
        b.apply_all(&acts);
        assert_eq!(c.direction(), *want);
        assert_eq!(b.outputs, c.outputs());
    }
    assert_eq!(c.direction(), Direction::Up);
    assert!(b.outputs.clockwise);
    assert!(!b.outputs.counter_clockwise);
}

#[test]
fn new_controller_is_stopped() {
    let c = Controller::new();
    assert_eq!(c.direction(), Direction::Stop);
    assert_eq!(c.outputs(), MotorOutputs::off());
}

#[test]
fn halt_drives_both_lines_low() {
    let mut c = controller_in(Direction::Down);
    let mut b = board_with(c.outputs());
    let acts = c.halt();
    b.apply_all(&acts);
    assert_eq!(c.direction(), Direction::Stop);
    assert_eq!(b.outputs, MotorOutputs { clockwise: false, counter_clockwise: false });
}

#[test]
fn drive_plan_orders_low_before_high() {
    assert_eq!(
        drive_plan(MotorOutputs { clockwise: true, counter_clockwise: false }),
        [Action::Drive(Output::CounterClockwise, false), Action::Drive(Output::Clockwise, true)]
    );
    assert_eq!(
        drive_plan(MotorOutputs { clockwise: false, counter_clockwise: true }),
        [Action::Drive(Output::Clockwise, false), Action::Drive(Output::CounterClockwise, true)]
    );
}

#[test]
fn outputs_safety_check() {
    assert!(!MotorOutputs { clockwise: true, counter_clockwise: true }.safe());
    assert!(MotorOutputs::for_direction(Direction::Up).safe());
    assert_eq!(MotorOutputs::for_direction(Direction::Stop), MotorOutputs::off());
}

#[test]
fn debounce_first_edge_is_accepted() {
    let mut d = Debouncer::new(50);
    assert!(d.accept(Line::Up, 1000));
    assert_eq!(d.last_up, Some(1000));
    assert_eq!(d.last_down, None);
}

#[test]
fn debounce_rejects_within_window() {
    let mut d = Debouncer::new(50);
    assert!(d.accept(Line::Up, 1000));
    assert!(!d.accept(Line::Up, 1049));
    assert_eq!(d.last_up, Some(1000));
    assert!(d.accept(Line::Up, 1050));
    assert_eq!(d.last_up, Some(1050));
}

#[test]
fn debounce_lines_are_independent() {
    let mut d = Debouncer::new(50);
    assert!(d.accept(Line::Up, 1000));
    assert!(d.accept(Line::Down, 1001));
    assert!(!d.accept(Line::Down, 1002));
}

#[test]
fn debounce_rejects_earlier_time() {
    let mut d = Debouncer::new(0);
    assert!(d.accept(Line::Down, 500));
    assert!(!d.accept(Line::Down, 499));
    assert!(d.accept(Line::Down, 500));
}
