use table_control::scheduler::{phase_correction, schedule_frame, FrameDecision, FRAME_LENGTH};

#[test]
fn tick_waits_for_a_whole_frame() {
    let r = schedule_frame(10_000, None, 10_999);
    assert_eq!(r, FrameDecision { last_time_checked: 10_000, run_tick: false, missed_by: None });
    let r = schedule_frame(10_000, None, 11_000);
    assert_eq!(r, FrameDecision { last_time_checked: 11_000, run_tick: true, missed_by: None });
}

#[test]
fn late_tick_is_reported() {
    let r = schedule_frame(10_000, None, 12_000);
    assert_eq!(r, FrameDecision { last_time_checked: 12_000, run_tick: true, missed_by: None });
    let r = schedule_frame(10_000, None, 12_001);
    assert_eq!(r, FrameDecision { last_time_checked: 12_001, run_tick: true, missed_by: Some(2_001) });
}

#[test]
fn correction_replaces_reference() {
    let r = schedule_frame(10_000, Some(10_500), 11_200);
    assert_eq!(r, FrameDecision { last_time_checked: 10_500, run_tick: false, missed_by: None });
    let r = schedule_frame(10_000, Some(10_100), 11_200);
    assert_eq!(r, FrameDecision { last_time_checked: 11_200, run_tick: true, missed_by: None });
}

#[test]
fn reference_in_the_future_is_not_due() {
    let r = schedule_frame(10_000, Some(20_000), 11_500);
    assert_eq!(r, FrameDecision { last_time_checked: 20_000, run_tick: false, missed_by: None });
}

#[test]
fn correction_is_half_a_frame_back() {
    assert_eq!(FRAME_LENGTH, 1000);
    assert_eq!(phase_correction(1_000_000), 999_500);
    assert_eq!(phase_correction(500), 0);
}
