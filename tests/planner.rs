use soraka::planner::{frame_count_for_duration, memory_bound, plan, ConfigError, FrameFormat, RetentionPolicy};

fn bgra_1440p() -> FrameFormat {
    FrameFormat { width: 2560, height: 1440, channels: 4, bit_depth: 8, frame_rate: 120 }
}

#[test]
fn plan_is_memory_bound_at_five_gigabytes() {
    let format = bgra_1440p();
    assert_eq!(format.bytes_per_frame(), Ok(14_745_600));
    let policy = RetentionPolicy::from_secs(4, 5_000_000_000);
    assert_eq!(frame_count_for_duration(&format, &policy), 480);
    assert_eq!(plan(&format, &policy), Ok(339));
    assert!(memory_bound(&format, &policy));
}

#[test]
fn plan_is_duration_bound_with_a_large_budget() {
    let format = bgra_1440p();
    let policy = RetentionPolicy::from_secs(4, 100_000_000_000);
    assert_eq!(plan(&format, &policy), Ok(480));
    assert!(!memory_bound(&format, &policy));
}

#[test]
fn plan_rounds_the_window_up() {
    let format = FrameFormat { width: 1, height: 1, channels: 1, bit_depth: 8, frame_rate: 30 };
    let policy = RetentionPolicy { retention_millis: 1, memory_budget: 1_000 };
    assert_eq!(frame_count_for_duration(&format, &policy), 1);
    assert_eq!(plan(&format, &policy), Ok(1));
    let policy = RetentionPolicy { retention_millis: 1_010, memory_budget: 1_000 };
    assert_eq!(plan(&format, &policy), Ok(31));
}

#[test]
fn plan_accepts_a_budget_of_exactly_one_frame() {
    let format = FrameFormat { width: 4, height: 4, channels: 3, bit_depth: 8, frame_rate: 60 };
    let policy = RetentionPolicy::from_secs(10, 48);
    assert_eq!(plan(&format, &policy), Ok(1));
}

#[test]
fn plan_refuses_a_budget_below_one_frame() {
    let format = bgra_1440p();
    let policy = RetentionPolicy::from_secs(4, 14_745_599);
    assert_eq!(plan(&format, &policy), Err(ConfigError::BudgetBelowOneFrame));
}

#[test]
fn plan_refuses_an_empty_frame() {
    let format = FrameFormat { width: 0, height: 1440, channels: 4, bit_depth: 8, frame_rate: 120 };
    assert_eq!(format.bytes_per_frame(), Err(ConfigError::EmptyFrame));
    assert_eq!(plan(&format, &RetentionPolicy::from_secs(4, 1_000)), Err(ConfigError::EmptyFrame));
    let format = FrameFormat { width: 1, height: 1, channels: 1, bit_depth: 7, frame_rate: 120 };
    assert_eq!(format.bytes_per_frame(), Err(ConfigError::EmptyFrame));
}

#[test]
fn plan_refuses_an_empty_window() {
    let format = bgra_1440p();
    assert_eq!(plan(&format, &RetentionPolicy::from_secs(0, 5_000_000_000)), Err(ConfigError::NoRetention));
    let still = FrameFormat { frame_rate: 0, ..bgra_1440p() };
    assert_eq!(plan(&still, &RetentionPolicy::from_secs(4, 5_000_000_000)), Err(ConfigError::NoRetention));
}

#[test]
fn bytes_per_frame_handles_the_largest_format() {
    let format = FrameFormat { width: u32::MAX, height: u32::MAX, channels: u8::MAX, bit_depth: u8::MAX, frame_rate: 1 };
    let bits = u32::MAX as u128 * u32::MAX as u128 * u8::MAX as u128 * u8::MAX as u128;
    let expected = bits / 8;
    if expected > usize::MAX as u128 {
        assert_eq!(format.bytes_per_frame(), Err(ConfigError::FrameTooLarge));
    } else {
        assert_eq!(format.bytes_per_frame(), Ok(expected as usize));
    }
}
