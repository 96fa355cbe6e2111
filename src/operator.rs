//! Operator command ingest: one byte at a time from the serial link, decoded
//! into mode toggles and motion commands for a single-slot mailbox.
use vstd::prelude::*;
use crate::command::{Command, command_of_byte, MODE_TOGGLE};

verus! {

/// Who decides the rover's motion.
#[derive(Debug, Clone, Copy, PartialEq, Eq, Structural)]
pub enum OperatingMode {
    Manual,
    Auto,
}

/// The state that command ingest writes: the mode, the command mailbox and
/// the mode indicator (lit in automatic mode).
#[derive(Debug, Clone, Copy, PartialEq, Eq, Structural)]
pub struct Operator {
    pub mode: OperatingMode,
    pub command: Option<Command>,
    pub indicator: bool,
}

/// The operator state after one received byte. The toggle byte flips the
/// mode; leaving automatic mode also posts `Brake` and clears the indicator.
/// Other bytes post their command in manual mode only; the rest are dropped.
pub open spec fn ingest(s: Operator, byte: u8) -> Operator {
    if byte == MODE_TOGGLE {
        match s.mode {
            OperatingMode::Auto => Operator {
                mode: OperatingMode::Manual,
                command: Some(Command::Brake),
                indicator: false,
            },
            OperatingMode::Manual => Operator { mode: OperatingMode::Auto, indicator: true, ..s },
        }
    } else {
        match (s.mode, command_of_byte(byte)) {
            (OperatingMode::Manual, Some(c)) => Operator { command: Some(c), ..s },
            _ => s,
        }
    }
}

impl Operator {
    /// The start-up state: manual mode, no pending command, indicator off.
    pub fn new() -> (r: Operator)
        ensures
            r.mode == OperatingMode::Manual,
            r.command.is_none(),
            !r.indicator,
    {
        Operator { mode: OperatingMode::Manual, command: None, indicator: false }
    }

    /// Takes one received byte and returns the byte to echo back, which is
    /// always the byte itself.
    pub fn receive_command(&mut self, byte: u8) -> (echo: u8)
        ensures
            *final(self) == ingest(*old(self), byte),
            echo == byte,
    {
        if byte == MODE_TOGGLE {
            match self.mode {
                OperatingMode::Auto => {
                    self.mode = OperatingMode::Manual;
                    self.indicator = false;
                    self.command = Some(Command::Brake);
                },
                OperatingMode::Manual => {
                    self.mode = OperatingMode::Auto;
                    self.indicator = true;
                },
            }
        } else {
            match self.mode {
                OperatingMode::Manual => {
                    match Command::from_byte(byte) {
                        Some(c) => {
                            self.command = Some(c);
                        },
                        None => {},
                    }
                },
                OperatingMode::Auto => {},
            }
        }
        byte
    }

    /// Takes the pending command out of the mailbox, leaving it empty.
    pub fn take_command(&mut self) -> (r: Option<Command>)
        ensures
            r == old(self).command,
            final(self).command.is_none(),
            final(self).mode == old(self).mode,
            final(self).indicator == old(self).indicator,
    {
        self.command.take()
    }
}

/// In manual mode a command byte replaces whatever the mailbox holds: of two
/// bytes received before any is consumed, the second command is the one left.
pub proof fn lemma_mailbox_overwrites(s: Operator, b1: u8, b2: u8)
    requires
        s.mode == OperatingMode::Manual,
        b1 != MODE_TOGGLE,
        command_of_byte(b2).is_some(),
    ensures
        ingest(ingest(s, b1), b2).command == command_of_byte(b2),
        ingest(ingest(s, b1), b2).mode == OperatingMode::Manual,
{
}

/// Toggling out of automatic mode always leaves `Brake` in the mailbox and
/// the indicator off, whatever the mailbox held before.
pub proof fn lemma_leaving_auto_brakes(s: Operator)
    requires
        s.mode == OperatingMode::Auto,
    ensures
        ingest(s, MODE_TOGGLE).mode == OperatingMode::Manual,
        ingest(s, MODE_TOGGLE).command == Some(Command::Brake),
        !ingest(s, MODE_TOGGLE).indicator,
{
}

} // verus!
