use capture::config::{StreamConfig, MAX_QUEUE_DEPTH};
use capture::error::Error;

#[test]
fn queue_depth_zero_is_rejected_before_any_stream() {
    assert_eq!(StreamConfig::new(1, 60, 0, true), Err(Error::StreamCreationFailed));
}

#[test]
fn sixty_frames_a_second() {
    let config = StreamConfig::new(1, 60, 6, true).unwrap();
    assert_eq!(config.interval_numerator(), 1);
    assert_eq!(config.interval_denominator(), 60);
    assert_eq!(config.queue_depth(), 6);
    assert!(config.show_cursor());
}

#[test]
fn queue_depth_is_bounded() {
    assert_eq!(MAX_QUEUE_DEPTH, 8);
    assert_eq!(StreamConfig::new(1, 30, 1, false).unwrap().queue_depth(), 1);
    assert_eq!(StreamConfig::new(1, 30, 8, false).unwrap().queue_depth(), 8);
    assert_eq!(StreamConfig::new(1, 30, 9, false), Err(Error::StreamCreationFailed));
    assert_eq!(StreamConfig::new(1, 30, u32::MAX, false), Err(Error::StreamCreationFailed));
}

#[test]
fn frame_interval_must_be_positive() {
    assert_eq!(StreamConfig::new(0, 60, 6, true), Err(Error::StreamCreationFailed));
    assert_eq!(StreamConfig::new(-1, 60, 6, true), Err(Error::StreamCreationFailed));
    assert_eq!(StreamConfig::new(1, 0, 6, true), Err(Error::StreamCreationFailed));
    assert_eq!(StreamConfig::new(1, -60, 6, true), Err(Error::StreamCreationFailed));
    assert_eq!(StreamConfig::new(i64::MIN, i32::MIN, 6, true), Err(Error::StreamCreationFailed));
    let slow = StreamConfig::new(i64::MAX, i32::MAX, 6, false).unwrap();
    assert_eq!(slow.interval_numerator(), i64::MAX);
    assert_eq!(slow.interval_denominator(), i32::MAX);
    assert!(!slow.show_cursor());
}
