//! Register values for the PWM outputs and the millisecond delay timer.
use vstd::prelude::*;

verus! {

/// PWM period in timer ticks of 1 µs: 20 ms, a 50 Hz servo frame.
pub const PWM_PERIOD: u16 = 20000;

/// Ticks of the millisecond delay timer per millisecond (one tick is 0.1 ms).
pub const DELAY_TICKS_PER_MS: u16 = 10;

/// The compare value that gives a duty cycle of `duty` percent.
pub fn duty_to_compare(duty: u16) -> (r: u16)
    requires
        duty <= 100,
    ensures
        r as int == duty as int * PWM_PERIOD as int / 100,
{
    let step: u16 = PWM_PERIOD / 100;
    assert(step == 200);
    assert(duty as int * 200 <= 20000) by (nonlinear_arith)
        requires duty <= 100;
    assert(duty as int * 20000 / 100 == duty as int * 200) by (nonlinear_arith);
    duty * step
}

/// The reload value of the delay timer for a wait of `ms` milliseconds.
pub fn delay_ms_reload(ms: u16) -> (r: u16)
    requires
        ms as int * DELAY_TICKS_PER_MS as int <= u16::MAX as int,
    ensures
        r as int == ms as int * DELAY_TICKS_PER_MS as int,
{
    ms * DELAY_TICKS_PER_MS
}

} // verus!
