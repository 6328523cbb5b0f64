use soraka::planner::{ConfigError, FrameFormat, RetentionPolicy};
use soraka::recorder::{pace, tick_nanos, Pacing, Recorder, StartError, TickAction};
use soraka::save::{check_raw_len, encoded_file_name, raw_file_name, IntegrityError};
use soraka::session::{ControlEvent, SessionState};

/// Two bytes a frame, four frames.
fn small() -> Recorder {
    let format = FrameFormat { width: 1, height: 1, channels: 2, bit_depth: 8, frame_rate: 2 };
    Recorder::new(format, RetentionPolicy::from_secs(2, 1_000)).unwrap()
}

#[test]
fn new_plans_and_reserves_the_ring() {
    let r = small();
    assert_eq!(r.ring().capacity(), 4);
    assert_eq!(r.ring().bytes_per_frame(), 2);
    assert_eq!(r.state(), SessionState::Buffering);
    assert_eq!(r.tick_action(), TickAction::Capture);
}

#[test]
fn new_reports_config_and_allocation_errors() {
    let format = FrameFormat { width: 1, height: 1, channels: 2, bit_depth: 8, frame_rate: 2 };
    let e = Recorder::new(format, RetentionPolicy::from_secs(2, 1)).err().unwrap();
    assert_eq!(e, StartError::Config(ConfigError::BudgetBelowOneFrame));
}

#[test]
fn frames_are_written_only_while_buffering() {
    let mut r = small();
    assert!(r.on_frame(&[1, 1]));
    r.apply(ControlEvent::Pause);
    assert_eq!(r.tick_action(), TickAction::Idle);
    assert!(!r.on_frame(&[2, 2]));
    r.apply(ControlEvent::Save);
    assert_eq!(r.tick_action(), TickAction::Save);
    assert!(!r.on_frame(&[3, 3]));
    assert_eq!(r.finish_save(), SessionState::Paused);
    r.apply(ControlEvent::Resume);
    assert!(r.on_frame(&[4, 4, 4]));
    r.apply(ControlEvent::Quit);
    assert_eq!(r.tick_action(), TickAction::Stop);
    assert!(!r.on_frame(&[5, 5]));
    assert_eq!(r.ring().linearize(), vec![vec![1, 1], vec![4, 4]]);
}

#[test]
fn a_lost_source_pauses_buffering() {
    let mut r = small();
    assert_eq!(r.on_source_lost(), SessionState::Paused);
    let mut s = small();
    s.apply(ControlEvent::Save);
    assert_eq!(s.on_source_lost(), SessionState::Saving);
}

#[test]
fn saved_size_is_capacity_times_frame_size() {
    let mut r = small();
    r.on_frame(&[1, 2]);
    r.apply(ControlEvent::Save);
    let mut raw: Vec<u8> = Vec::new();
    for k in 0..r.ring().capacity() {
        raw.extend_from_slice(r.ring().saved_frame(k));
    }
    assert_eq!(raw, vec![0, 0, 0, 0, 0, 0, 1, 2]);
    assert_eq!(r.check_saved(raw.len() as u64), Ok(()));
    assert_eq!(r.check_saved(7), Err(IntegrityError { expected: 8, written: 7 }));
    assert_eq!(r.check_saved(16), Err(IntegrityError { expected: 8, written: 16 }));
    assert_eq!(r.finish_save(), SessionState::Buffering);
}

#[test]
fn check_raw_len_accepts_only_the_exact_size() {
    assert_eq!(check_raw_len(0, 0), Ok(()));
    assert_eq!(check_raw_len(14_745_600 * 339, 14_745_600 * 339), Ok(()));
    assert_eq!(check_raw_len(10, 9), Err(IntegrityError { expected: 10, written: 9 }));
}

#[test]
fn random_interleavings_never_tear_a_frame() {
    let format = FrameFormat { width: 4, height: 2, channels: 1, bit_depth: 8, frame_rate: 3 };
    let mut r = Recorder::new(format, RetentionPolicy::from_secs(2, 1_000)).unwrap();
    let size = r.ring().bytes_per_frame();
    let mut seed: u64 = 0x2545_f491_4f6c_dd1d;
    let mut tag: u8 = 0;
    let mut written: Vec<u8> = Vec::new();
    for _ in 0..2_000 {
        seed = seed.wrapping_mul(6364136223846793005).wrapping_add(1442695040888963407);
        match (seed >> 33) % 6 {
            0 => { r.apply(ControlEvent::Pause); }
            1 => { r.apply(ControlEvent::Resume); }
            2 => { r.apply(ControlEvent::Save); }
            3 => { r.finish_save(); }
            _ => {
                let state = r.state();
                tag = tag.wrapping_add(1);
                let wrote = r.on_frame(&vec![tag; size]);
                assert_eq!(wrote, state == SessionState::Buffering);
                if wrote {
                    written.push(tag);
                }
            }
        }
        let out = r.ring().linearize();
        let kept = written.len().min(r.ring().capacity());
        assert_eq!(out.len(), kept);
        for (k, f) in out.iter().enumerate() {
            assert_eq!(f.len(), size);
            assert!(f.iter().all(|b| *b == f[0]));
            assert_eq!(f[0], written[written.len() - kept + k]);
        }
    }
}

#[test]
fn tick_length_and_pacing() {
    assert_eq!(tick_nanos(120), 8_333_333);
    assert_eq!(tick_nanos(1), 1_000_000_000);
    assert_eq!(pace(3_000_000, 8_333_333), Pacing::Sleep(5_333_333));
    assert_eq!(pace(8_333_333, 8_333_333), Pacing::Sleep(0));
    assert_eq!(pace(9_000_000, 8_333_333), Pacing::Overrun(666_667));
}

#[test]
fn file_names_carry_the_stamp() {
    assert_eq!(raw_file_name(1_700_000_000), "raw1700000000.raw");
    assert_eq!(encoded_file_name(1_700_000_000), "crafted1700000000.mp4");
    assert_eq!(raw_file_name(0), "raw0.raw");
    assert_eq!(raw_file_name(-42), "raw-42.raw");
    assert_eq!(raw_file_name(i64::MIN), format!("raw{}.raw", i64::MIN));
}
