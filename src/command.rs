//! Motion commands, their wheel patterns and the operator byte table.
use vstd::prelude::*;

verus! {

/// A motion command for the four wheel drivers.
#[derive(Debug, Clone, Copy, PartialEq, Eq, Structural)]
pub enum Command {
    Forward,
    Reverse,
    RightTurn,
    LeftTurn,
    Brake,
    Stop,
    Donut,
}

/// The wheel pattern that drives the rover forward.
pub open spec fn forward_bits() -> Seq<u8> {
    seq![1u8, 0, 1, 0, 1, 0, 1, 0]
}

/// The bit-inverted forward pattern: every wheel backwards.
pub open spec fn reverse_bits() -> Seq<u8> {
    seq![0u8, 1, 0, 1, 0, 1, 0, 1]
}

/// Right wheels backwards, left wheels forwards.
pub open spec fn right_turn_bits() -> Seq<u8> {
    seq![0u8, 1, 0, 1, 1, 0, 1, 0]
}

/// Right wheels forwards, left wheels backwards.
pub open spec fn left_turn_bits() -> Seq<u8> {
    seq![1u8, 0, 1, 0, 0, 1, 0, 1]
}

/// Every driver released: the wheels coast.
pub open spec fn coast_bits() -> Seq<u8> {
    seq![0u8, 0, 0, 0, 0, 0, 0, 0]
}

/// The 8-bit pattern that a command puts on the shift register.
pub open spec fn pattern_of(c: Command) -> Seq<u8> {
    match c {
        Command::Forward => forward_bits(),
        Command::Reverse => reverse_bits(),
        Command::Brake => reverse_bits(),
        Command::RightTurn => right_turn_bits(),
        Command::Donut => right_turn_bits(),
        Command::LeftTurn => left_turn_bits(),
        Command::Stop => coast_bits(),
    }
}

/// How long a transient command is held before the wheels are released,
/// in milliseconds; `None` for a command held until the next one.
pub open spec fn hold_of(c: Command) -> Option<u16> {
    match c {
        Command::RightTurn => Some(250u16),
        Command::LeftTurn => Some(250u16),
        Command::Brake => Some(200u16),
        Command::Donut => Some(2000u16),
        _ => None,
    }
}

/// The operator byte that toggles between manual and automatic driving.
pub const MODE_TOGGLE: u8 = 0x41;

/// The command that an operator byte names, if any.
pub open spec fn command_of_byte(b: u8) -> Option<Command> {
    if b == 0x42 {
        Some(Command::Forward)
    } else if b == 0x43 {
        Some(Command::Reverse)
    } else if b == 0x44 {
        Some(Command::RightTurn)
    } else if b == 0x45 {
        Some(Command::LeftTurn)
    } else if b == 0x46 {
        Some(Command::Brake)
    } else if b == 0x47 {
        Some(Command::Stop)
    } else if b == 0x48 {
        Some(Command::Donut)
    } else {
        None
    }
}

impl Command {
    /// The wheel pattern of this command.
    pub fn pattern(&self) -> (r: [u8; 8])
        ensures
            r@ == pattern_of(*self),
    {
        let r: [u8; 8] = match self {
            Command::Forward => [1, 0, 1, 0, 1, 0, 1, 0],
            Command::Reverse | Command::Brake => [0, 1, 0, 1, 0, 1, 0, 1],
            Command::RightTurn | Command::Donut => [0, 1, 0, 1, 1, 0, 1, 0],
            Command::LeftTurn => [1, 0, 1, 0, 0, 1, 0, 1],
            Command::Stop => [0, 0, 0, 0, 0, 0, 0, 0],
        };
        assert(r@ =~= pattern_of(*self));
        r
    }

    /// The hold time of a transient command, `None` for a held one.
    pub fn hold_ms(&self) -> (r: Option<u16>)
        ensures
            r == hold_of(*self),
    {
        match self {
            Command::RightTurn | Command::LeftTurn => Some(250),
            Command::Brake => Some(200),
            Command::Donut => Some(2000),
            _ => None,
        }
    }

    /// Decodes an operator byte into the command it names.
    pub fn from_byte(b: u8) -> (r: Option<Command>)
        ensures
            r == command_of_byte(b),
    {
        match b {
            0x42 => Some(Command::Forward),
            0x43 => Some(Command::Reverse),
            0x44 => Some(Command::RightTurn),
            0x45 => Some(Command::LeftTurn),
            0x46 => Some(Command::Brake),
            0x47 => Some(Command::Stop),
            0x48 => Some(Command::Donut),
            _ => None,
        }
    }
}

} // verus!
