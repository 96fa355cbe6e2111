use obstacle_avoiding_rover::navigation::{control, decide, Action, Navigator};
use obstacle_avoiding_rover::operator::Operator;
use obstacle_avoiding_rover::{Command, ServoDirection, UltrasonicPosition};

fn auto_operator() -> Operator {
    let mut op = Operator::new();
    op.receive_command(0x41);
    op
}

#[test]
fn scan_turns_toward_clearance() {
    assert_eq!(decide(30, 10), vec![Command::RightTurn]);
    assert_eq!(decide(10, 30), vec![Command::LeftTurn]);
    assert_eq!(decide(25, 25), vec![Command::LeftTurn]);
}

#[test]
fn scan_both_blocked_reverses_then_turns() {
    assert_eq!(decide(15, 10), vec![Command::Reverse, Command::RightTurn]);
    assert_eq!(decide(20, 20), vec![Command::Reverse, Command::RightTurn]);
}

#[test]
fn full_scan_cycle() {
    let mut nav = Navigator::new();
    let a = nav.auto_step(12);
    assert_eq!(a, vec![Action::Drive(Command::Brake), Action::Servo(5), Action::DelayMs(1000)]);
    assert_eq!(nav.position, UltrasonicPosition::Right);
    let a = nav.auto_step(30);
    assert_eq!(a, vec![Action::Servo(25), Action::DelayMs(1000)]);
    assert_eq!(nav.position, UltrasonicPosition::Left);
    assert_eq!(nav.dr, 30);
    let a = nav.auto_step(10);
    assert_eq!(
        a,
        vec![
            Action::Servo(15),
            Action::DelayMs(1000),
            Action::Drive(Command::RightTurn),
            Action::DelayMs(500),
        ]
    );
    assert_eq!(nav.position, UltrasonicPosition::Middle);
    assert_eq!(nav.dl, 10);
}

#[test]
fn scan_cycle_both_blocked() {
    let mut nav = Navigator::new();
    nav.auto_step(5);
    nav.auto_step(15);
    let a = nav.auto_step(10);
    assert_eq!(
        a,
        vec![
            Action::Servo(15),
            Action::DelayMs(1000),
            Action::Drive(Command::Reverse),
            Action::Drive(Command::RightTurn),
            Action::DelayMs(500),
        ]
    );
}

#[test]
fn forward_issued_once_while_clear() {
    let mut nav = Navigator::new();
    assert_eq!(nav.auto_step(50), vec![Action::Drive(Command::Forward)]);
    assert!(nav.moving_forward);
    assert_eq!(nav.auto_step(60), vec![]);
    assert_eq!(nav.auto_step(21), vec![]);
    assert_eq!(nav.manual_step(Command::Stop), vec![Action::Drive(Command::Stop)]);
    assert!(!nav.moving_forward);
    assert_eq!(nav.auto_step(50), vec![Action::Drive(Command::Forward)]);
    nav.auto_step(20);
    assert!(!nav.moving_forward);
}

#[test]
fn servo_duties() {
    assert_eq!(UltrasonicPosition::Right.servo_duty(), 5);
    assert_eq!(UltrasonicPosition::Middle.servo_duty(), 15);
    assert_eq!(UltrasonicPosition::Left.servo_duty(), 25);
    assert_eq!(ServoDirection::Left.position(), UltrasonicPosition::Left);
    assert_eq!(ServoDirection::Right.position(), UltrasonicPosition::Right);
}

#[test]
fn control_manual_drains_mailbox() {
    let mut nav = Navigator::new();
    let mut op = Operator::new();
    let mut distance = Some(40);
    op.receive_command(0x45);
    let s = control(&mut nav, &mut op, &mut distance);
    assert!(!s.trigger);
    assert_eq!(s.actions, vec![Action::Drive(Command::LeftTurn)]);
    assert_eq!(op.command, None);
    assert_eq!(distance, Some(40));
    let s = control(&mut nav, &mut op, &mut distance);
    assert!(s.actions.is_empty());
}

#[test]
fn control_auto_consumes_distance() {
    let mut nav = Navigator::new();
    let mut op = auto_operator();
    let mut distance = None;
    let s = control(&mut nav, &mut op, &mut distance);
    assert!(s.trigger);
    assert!(s.actions.is_empty());
    distance = Some(100);
    let s = control(&mut nav, &mut op, &mut distance);
    assert!(s.trigger);
    assert_eq!(s.actions, vec![Action::Drive(Command::Forward)]);
    assert_eq!(distance, None);
}

#[test]
fn control_after_leaving_auto_brakes() {
    let mut nav = Navigator::new();
    let mut op = auto_operator();
    let mut distance = Some(100);
    control(&mut nav, &mut op, &mut distance);
    assert!(nav.moving_forward);
    op.receive_command(0x41);
    let s = control(&mut nav, &mut op, &mut distance);
    assert_eq!(s.actions, vec![Action::Drive(Command::Brake)]);
    assert!(!nav.moving_forward);
}
