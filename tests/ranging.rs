use obstacle_avoiding_rover::range;
use obstacle_avoiding_rover::range::{
    distance_cm, elapsed_ticks, overflow, CaptureAction, EchoCapture, TriggerStep,
};
use obstacle_avoiding_rover::EchoStatus;

#[test]
fn overflow_corrected_distance() {
    let t = elapsed_ticks(1000, 500, 1);
    assert_eq!(t, 65036);
    assert_eq!(distance_cm(t), 1105);
}

#[test]
fn elapsed_without_overflow() {
    assert_eq!(elapsed_ticks(100, 1276, 0), 1176);
    assert_eq!(distance_cm(1176), 19);
}

#[test]
fn elapsed_out_of_order_reads_zero() {
    assert_eq!(elapsed_ticks(500, 100, 0), 0);
    assert_eq!(distance_cm(0), 0);
}

#[test]
fn elapsed_largest_inputs() {
    let t = elapsed_ticks(0, u32::MAX, u32::MAX);
    assert_eq!(t, u32::MAX as u64 + u32::MAX as u64 * 65536);
    assert_eq!(distance_cm(t), t * 17 / 1000);
}

#[test]
fn distance_floor_exact_values() {
    assert_eq!(distance_cm(999), 16);
    assert_eq!(distance_cm(1000), 17);
    assert_eq!(distance_cm(u64::MAX), u64::MAX / 1000 * 17 + (u64::MAX % 1000) * 17 / 1000);
}

#[test]
fn overflow_counts_and_resets_at_max() {
    let mut ov: u32 = 0;
    overflow(&mut ov);
    assert_eq!(ov, 1);
    let mut ov: u32 = u32::MAX - 2;
    overflow(&mut ov);
    assert_eq!(ov, u32::MAX - 1);
    overflow(&mut ov);
    assert_eq!(ov, 0);
}

#[test]
fn capture_full_measurement() {
    let mut cap = EchoCapture::new();
    let mut ov: u32 = 7;
    let mut distance: Option<u64> = None;
    assert_eq!(cap.time_capture(1000, &mut ov, &mut distance), CaptureAction::Arm);
    assert_eq!(cap.status, EchoStatus::DONE);
    assert_eq!(cap.t1, 1000);
    assert_eq!(ov, 0);
    assert_eq!(distance, None);
    overflow(&mut ov);
    assert_eq!(cap.time_capture(500, &mut ov, &mut distance), CaptureAction::Finish);
    assert_eq!(cap.status, EchoStatus::IDLE);
    assert_eq!(cap.t2, 500);
    assert_eq!(distance, Some(1105));
}

#[test]
fn capture_state_alternates() {
    let mut cap = EchoCapture::new();
    let mut ov: u32 = 0;
    let mut distance: Option<u64> = None;
    let mut last = cap.status;
    for i in 0..6u16 {
        cap.time_capture(i * 100, &mut ov, &mut distance);
        assert_ne!(cap.status, last);
        last = cap.status;
    }
    assert_eq!(cap.status, EchoStatus::IDLE);
}

#[test]
fn capture_overwrites_unconsumed_distance() {
    let mut cap = EchoCapture::new();
    let mut ov: u32 = 0;
    let mut distance: Option<u64> = Some(3);
    cap.time_capture(0, &mut ov, &mut distance);
    assert_eq!(distance, Some(3));
    cap.time_capture(2000, &mut ov, &mut distance);
    assert_eq!(distance, Some(34));
}

#[test]
fn trigger_pulse_sequence() {
    assert_eq!(
        range::trigger(),
        vec![
            TriggerStep::Low,
            TriggerStep::DelayUs(2),
            TriggerStep::High,
            TriggerStep::DelayUs(10),
            TriggerStep::Low,
            TriggerStep::SleepMs(200),
        ]
    );
}
