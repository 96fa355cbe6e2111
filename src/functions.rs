//! The bit-serial motor protocol: a command becomes a wheel pattern, and a
//! pattern becomes the sequence of latch, data, clock and delay steps that
//! loads it into the shift register driving the wheels.
use vstd::prelude::*;
use crate::command::{Command, pattern_of, hold_of, coast_bits};
use crate::Data;

verus! {

/// One action on the three shift-register lines, or a blocking wait.
#[derive(Debug, Clone, Copy, PartialEq, Eq, Structural)]
pub enum WireStep {
    LatchLow,
    LatchHigh,
    DataLow,
    DataHigh,
    ClockHigh,
    ClockLow,
    DelayMs(u16),
}

/// Pause between clock edges of one bit, in milliseconds.
pub const BIT_DELAY_MS: u16 = 5;

/// The steps that shift one bit out. The driver is active low, so a set bit
/// drives the data line low.
pub open spec fn bit_steps(bit: u8) -> Seq<WireStep> {
    seq![
        if bit == 1 { WireStep::DataLow } else { WireStep::DataHigh },
        WireStep::ClockHigh,
        WireStep::DelayMs(BIT_DELAY_MS),
        WireStep::ClockLow,
    ]
}

/// The steps for the last `k` bits of `data`, taken from the highest index down.
pub open spec fn sent(data: Seq<u8>, k: nat) -> Seq<WireStep>
    decreases k,
{
    if k == 0 {
        Seq::empty()
    } else {
        sent(data, (k - 1) as nat) + bit_steps(data[data.len() - k])
    }
}

/// A whole frame: latch low, the bits in reverse index order, latch high.
pub open spec fn frame(data: Seq<u8>) -> Seq<WireStep> {
    seq![WireStep::LatchLow] + sent(data, data.len()) + seq![WireStep::LatchHigh]
}

/// What driving the motors with a command puts on the wires: its pattern, and
/// for a transient command the hold and then the coasting pattern.
pub open spec fn drive_steps(c: Command) -> Seq<WireStep> {
    match hold_of(c) {
        Some(ms) => frame(pattern_of(c)) + seq![WireStep::DelayMs(ms)] + frame(coast_bits()),
        None => frame(pattern_of(c)),
    }
}

proof fn lemma_sent_len(data: Seq<u8>, k: nat)
    ensures
        sent(data, k).len() == 4 * k,
    decreases k,
{
    if k > 0 {
        lemma_sent_len(data, (k - 1) as nat);
    }
}

/// The steps that load one frame into the shift register.
pub fn update_shift_register(data: Data) -> (r: Vec<WireStep>)
    ensures
        r@ == frame(data@),
{
    let mut r: Vec<WireStep> = Vec::new();
    r.push(WireStep::LatchLow);
    let mut k: usize = 0;
    while k < 8
        invariant
            k <= 8,
            data@.len() == 8,
            r@ == seq![WireStep::LatchLow] + sent(data@, k as nat),
        decreases 8 - k,
    {
        let bit = data[7 - k];
        let line = if bit == 1 {
            WireStep::DataLow
        } else {
            WireStep::DataHigh
        };
        let ghost before = r@;
        r.push(line);
        r.push(WireStep::ClockHigh);
        r.push(WireStep::DelayMs(BIT_DELAY_MS));
        r.push(WireStep::ClockLow);
        k = k + 1;
        assert(r@ =~= before + bit_steps(data@[data@.len() - k]));
        assert(r@ =~= seq![WireStep::LatchLow] + sent(data@, k as nat));
    }
    r.push(WireStep::LatchHigh);
    assert(r@ =~= frame(data@));
    r
}

/// The steps that drive the motors with a command.
pub fn drive_motors(command: &Command) -> (r: Vec<WireStep>)
    ensures
        r@ == drive_steps(*command),
{
    let mut r = update_shift_register(command.pattern());
    match command.hold_ms() {
        Some(ms) => {
            let ghost first = r@;
            r.push(WireStep::DelayMs(ms));
            let mut release = update_shift_register([0, 0, 0, 0, 0, 0, 0, 0]);
            proof {
                let z: Seq<u8> = seq![0u8, 0, 0, 0, 0, 0, 0, 0];
                assert(z =~= coast_bits());
            }
            r.append(&mut release);
            assert(r@ =~= first + seq![WireStep::DelayMs(ms)] + frame(coast_bits()));
        },
        None => {},
    }
    r
}

/// The data-line level that shifts out one bit.
pub open spec fn data_step(bit: u8) -> WireStep {
    if bit == 1 {
        WireStep::DataLow
    } else {
        WireStep::DataHigh
    }
}

proof fn lemma_sent_data(data: Seq<u8>, k: nat, j: int)
    requires
        k <= data.len(),
        0 <= j < k,
    ensures
        sent(data, k).len() == 4 * k,
        sent(data, k)[4 * j] == data_step(data[data.len() - 1 - j]),
    decreases k,
{
    lemma_sent_len(data, k);
    lemma_sent_len(data, (k - 1) as nat);
    if j < k - 1 {
        lemma_sent_data(data, (k - 1) as nat, j);
    }
}

/// In a frame, the `j`-th data-line level carries bit `7 - j`, inverted: the
/// bits go out from the highest index down, active low.
pub proof fn lemma_frame_bit_order(data: Seq<u8>, j: int)
    requires
        data.len() == 8,
        0 <= j < 8,
    ensures
        frame(data).len() == 34,
        frame(data)[1 + 4 * j] == data_step(data[7 - j]),
{
    lemma_sent_data(data, 8, j);
}

/// Driving forward puts High, Low, High, Low, High, Low, High, Low on the data
/// line, and no hold follows.
pub proof fn lemma_forward_data_line(j: int)
    requires
        0 <= j < 8,
    ensures
        drive_steps(Command::Forward) == frame(seq![1u8, 0, 1, 0, 1, 0, 1, 0]),
        drive_steps(Command::Forward)[1 + 4 * j] == (if j % 2 == 0 {
            WireStep::DataHigh
        } else {
            WireStep::DataLow
        }),
{
    let bits = seq![1u8, 0, 1, 0, 1, 0, 1, 0];
    lemma_frame_bit_order(bits, j);
}

} // verus!
