use obstacle_avoiding_rover::operator::{OperatingMode, Operator};
use obstacle_avoiding_rover::Command;

#[test]
fn mailbox_overwrite_not_queue() {
    let mut op = Operator::new();
    op.receive_command(0x42);
    op.receive_command(0x43);
    assert_eq!(op.command, Some(Command::Reverse));
    assert_eq!(op.take_command(), Some(Command::Reverse));
    assert_eq!(op.take_command(), None);
}

#[test]
fn toggle_from_auto_injects_brake() {
    let mut op = Operator::new();
    op.receive_command(0x48);
    assert_eq!(op.receive_command(0x41), 0x41);
    assert_eq!(op.mode, OperatingMode::Auto);
    assert!(op.indicator);
    assert_eq!(op.command, Some(Command::Donut));
    op.receive_command(0x41);
    assert_eq!(op.mode, OperatingMode::Manual);
    assert!(!op.indicator);
    assert_eq!(op.command, Some(Command::Brake));
}

#[test]
fn commands_dropped_in_auto() {
    let mut op = Operator::new();
    op.receive_command(0x41);
    assert_eq!(op.receive_command(0x42), 0x42);
    assert_eq!(op.command, None);
}

#[test]
fn unknown_bytes_dropped_and_echoed() {
    let mut op = Operator::new();
    op.receive_command(0x44);
    assert_eq!(op.receive_command(0x00), 0x00);
    assert_eq!(op.receive_command(0x49), 0x49);
    assert_eq!(op.command, Some(Command::RightTurn));
    assert_eq!(op.mode, OperatingMode::Manual);
}

#[test]
fn byte_table_covers_all_commands() {
    let expected = [
        (0x42u8, Command::Forward),
        (0x43, Command::Reverse),
        (0x44, Command::RightTurn),
        (0x45, Command::LeftTurn),
        (0x46, Command::Brake),
        (0x47, Command::Stop),
        (0x48, Command::Donut),
    ];
    for (b, c) in expected {
        assert_eq!(Command::from_byte(b), Some(c));
        let mut op = Operator::new();
        op.receive_command(b);
        assert_eq!(op.command, Some(c));
    }
    assert_eq!(Command::from_byte(0x41), None);
}
