//! Control core of an obstacle-avoiding rover: echo-capture ranging, operator
//! command ingest, the navigation decision machine and the bit-serial motor
//! protocol, each as verified state transitions that hardware glue executes.
use vstd::prelude::*;

pub mod command;
pub mod functions;
pub mod range;
pub mod operator;
pub mod navigation;
pub mod sched;
pub mod timing;

pub use command::Command;
pub use functions::{drive_motors, update_shift_register, WireStep};
pub use navigation::{ServoDirection, UltrasonicPosition};
pub use range::EchoStatus;

verus! {

/// One shift-register frame: two bits per wheel, four wheels.
pub type Data = [u8; 8];

} // verus!
