//! Ultrasonic ranging: the trigger pulse, the timer-overflow counter and the
//! two-edge capture machine that turns an echo pulse into a distance.
use vstd::prelude::*;

verus! {

/// The phase of the capture machine.
#[derive(Debug, Clone, Copy, PartialEq, Eq, Structural)]
pub enum EchoStatus {
    /// Waiting for the rising edge of an echo pulse.
    IDLE,
    /// The rising edge was taken; waiting for the falling edge.
    DONE,
}

/// The phase that follows another on a capture edge.
pub open spec fn next_status(s: EchoStatus) -> EchoStatus {
    match s {
        EchoStatus::IDLE => EchoStatus::DONE,
        EchoStatus::DONE => EchoStatus::IDLE,
    }
}

/// Capture phases alternate: every edge changes the phase, and two edges
/// bring it back, so no phase is ever entered twice in a row.
pub proof fn lemma_capture_alternates(s: EchoStatus)
    ensures
        next_status(s) != s,
        next_status(next_status(s)) == s,
{
}

/// Ticks in one full period of the 16-bit capture counter.
pub const COUNTER_PERIOD: u64 = 65536;

/// The timer-overflow handler's step: one more counter rollover, reset to zero
/// on reaching the largest value the counter can hold.
pub open spec fn overflow_next(ov: u32) -> u32 {
    if ov as int + 1 >= u32::MAX as int {
        0
    } else {
        (ov + 1) as u32
    }
}

/// Records one rollover of the capture counter.
pub fn overflow(ov_cnt: &mut u32)
    ensures
        *final(ov_cnt) == overflow_next(*old(ov_cnt)),
{
    if *ov_cnt >= u32::MAX - 1 {
        *ov_cnt = 0;
    } else {
        *ov_cnt = *ov_cnt + 1;
    }
}

/// Ticks between the two edges: `t2 + overflows * 65536 - t1`, read as zero
/// where the edges were taken out of order.
pub open spec fn elapsed_of(t1: u32, t2: u32, overflows: u32) -> int {
    let t = t2 as int + overflows as int * COUNTER_PERIOD as int - t1 as int;
    if t < 0 {
        0
    } else {
        t
    }
}

/// Distance in whole centimetres for an echo of `ticks` microseconds: sound
/// travels 0.034 cm per microsecond, there and back, so `floor(ticks * 0.017)`.
pub open spec fn distance_of(ticks: int) -> int {
    ticks * 17 / 1000
}

/// Ticks between two captured edges, correcting for counter rollovers.
pub fn elapsed_ticks(t1: u32, t2: u32, overflows: u32) -> (r: u64)
    ensures
        r as int == elapsed_of(t1, t2, overflows),
{
    let high: u64 = t2 as u64 + overflows as u64 * COUNTER_PERIOD;
    if high >= t1 as u64 {
        high - t1 as u64
    } else {
        0
    }
}

/// The distance in centimetres that an echo of `ticks` microseconds measures.
pub fn distance_cm(ticks: u64) -> (r: u64)
    ensures
        r as int == distance_of(ticks as int),
{
    let q: u64 = ticks / 1000;
    let m: u64 = ticks % 1000;
    proof {
        let t = ticks as int;
        assert(t == 1000 * (q as int) + m as int);
        assert(t * 17 == 1000 * (17 * q as int) + 17 * m as int) by (nonlinear_arith)
            requires t == 1000 * (q as int) + m as int;
        assert((1000 * (17 * q as int) + 17 * m as int) / 1000 == 17 * q as int + (17 * m as int) / 1000)
            by (nonlinear_arith);
    }
    q * 17 + m * 17 / 1000
}

/// What the capture handler asks of the capture timer after an edge.
#[derive(Debug, Clone, Copy, PartialEq, Eq, Structural)]
pub enum CaptureAction {
    /// Invert the capture edge and keep the timer counting.
    Arm,
    /// Invert the capture edge back and stop the timer.
    Finish,
}

/// The state that the capture handler owns: its phase and the two timestamps.
pub struct EchoCapture {
    pub status: EchoStatus,
    pub t1: u32,
    pub t2: u32,
}

impl EchoCapture {
    /// A machine waiting for its first edge.
    pub fn new() -> (r: EchoCapture)
        ensures
            r.status == EchoStatus::IDLE,
            r.t1 == 0,
            r.t2 == 0,
    {
        EchoCapture { status: EchoStatus::IDLE, t1: 0, t2: 0 }
    }

    /// Handles one capture edge, with `ccr` the latched counter value. On the
    /// rising edge it records `t1` and zeroes the overflow counter; on the
    /// falling edge it records `t2` and publishes the distance, overwriting
    /// whatever reading was left unconsumed.
    pub fn time_capture(&mut self, ccr: u16, ov_cnt: &mut u32, distance: &mut Option<u64>) -> (r:
        CaptureAction)
        ensures
            final(self).status == next_status(old(self).status),
            old(self).status == EchoStatus::IDLE ==> {
                &&& final(self).status == EchoStatus::DONE
                &&& final(self).t1 == ccr as u32
                &&& final(self).t2 == old(self).t2
                &&& *final(ov_cnt) == 0
                &&& *final(distance) == *old(distance)
                &&& r == CaptureAction::Arm
            },
            old(self).status == EchoStatus::DONE ==> {
                &&& final(self).status == EchoStatus::IDLE
                &&& final(self).t1 == old(self).t1
                &&& final(self).t2 == ccr as u32
                &&& *final(ov_cnt) == *old(ov_cnt)
                &&& *final(distance) == Some(
                    distance_of(elapsed_of(old(self).t1, ccr as u32, *old(ov_cnt))) as u64,
                )
                &&& r == CaptureAction::Finish
            },
    {
        match self.status {
            EchoStatus::IDLE => {
                self.t1 = ccr as u32;
                *ov_cnt = 0;
                self.status = EchoStatus::DONE;
                CaptureAction::Arm
            },
            EchoStatus::DONE => {
                self.t2 = ccr as u32;
                self.status = EchoStatus::IDLE;
                let ticks = elapsed_ticks(self.t1, self.t2, *ov_cnt);
                *distance = Some(distance_cm(ticks));
                CaptureAction::Finish
            },
        }
    }
}

/// One action of the trigger task on the trigger line.
#[derive(Debug, Clone, Copy, PartialEq, Eq, Structural)]
pub enum TriggerStep {
    Low,
    High,
    /// A blocking wait, in microseconds.
    DelayUs(u16),
    /// A suspension that yields to other tasks, in milliseconds.
    SleepMs(u32),
}

/// The trigger task's sequence: low for 2 µs, high for 10 µs, low, and a
/// 200 ms suspension before the next pulse.
pub open spec fn trigger_steps() -> Seq<TriggerStep> {
    seq![
        TriggerStep::Low,
        TriggerStep::DelayUs(2),
        TriggerStep::High,
        TriggerStep::DelayUs(10),
        TriggerStep::Low,
        TriggerStep::SleepMs(200),
    ]
}

/// The steps of one trigger pulse.
pub fn trigger() -> (r: Vec<TriggerStep>)
    ensures
        r@ == trigger_steps(),
{
    let r = vec![
        TriggerStep::Low,
        TriggerStep::DelayUs(2),
        TriggerStep::High,
        TriggerStep::DelayUs(10),
        TriggerStep::Low,
        TriggerStep::SleepMs(200),
    ];
    assert(r@ =~= trigger_steps());
    r
}

} // verus!
