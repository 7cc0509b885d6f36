use fuel_ingestion_service::motion_buffer::{is_sustained_motion, MotionBuffer, MOTION_WINDOW_SIZE};
use fuel_ingestion_service::motion_tracker::MotionTracker;

/// A stand-in motion sample: second of arrival, vibration score, motion flag.
#[derive(Debug, Clone, Copy, PartialEq)]
struct Sample {
    second: u32,
    vibration_score: f64,
    motion_detected: bool,
}

fn create_sample(second: u32, vibration_score: f64, motion_detected: bool) -> Sample {
    Sample { second, vibration_score, motion_detected }
}

fn window(buffer: &MotionBuffer<Sample>) -> Vec<Sample> {
    (0..buffer.len()).map(|i| *buffer.sample(i)).collect()
}

fn average_vibration(buffer: &MotionBuffer<Sample>) -> f64 {
    let samples = window(buffer);
    samples.iter().map(|s| s.vibration_score).sum::<f64>() / samples.len() as f64
}

#[test]
fn empty_buffer_returns_no_motion_evidence() {
    let buffer: MotionBuffer<Sample> = MotionBuffer::new();

    assert_eq!(buffer.len(), 0);
    assert!(!buffer.is_full());
    assert!(buffer.is_empty());
}

#[test]
fn buffer_never_exceeds_the_motion_window_size() {
    let mut buffer = MotionBuffer::new();

    for second in 1..=6 {
        buffer.push(create_sample(second, second as f64, true));
    }

    assert_eq!(buffer.len(), MOTION_WINDOW_SIZE);
    assert!(buffer.is_full());
}

#[test]
fn oldest_sample_is_removed_when_window_is_full() {
    let mut buffer = MotionBuffer::new();

    for second in 1..=6 {
        buffer.push(create_sample(second, second as f64, true));
    }

    let retained: Vec<u32> = window(&buffer).iter().map(|s| s.second).collect();
    assert_eq!(retained, vec![2, 3, 4, 5, 6]);
    assert!((average_vibration(&buffer) - 4.0).abs() < 0.000_001);
}

fn motion_count(buffer: &MotionBuffer<Sample>) -> usize {
    window(buffer).iter().filter(|s| s.motion_detected).count()
}

#[test]
fn motion_ratio_is_calculated_from_detected_samples() {
    let mut buffer = MotionBuffer::new();
    buffer.push(create_sample(1, 3.0, true));
    buffer.push(create_sample(2, 3.0, true));
    buffer.push(create_sample(3, 0.0, false));
    buffer.push(create_sample(4, 3.0, true));
    buffer.push(create_sample(5, 0.0, false));

    // Three out of five samples indicate motion.
    let moving = motion_count(&buffer);
    assert_eq!(moving, 3);
    assert!((moving as f64 / buffer.len() as f64 - 0.6).abs() < 0.000_001);
    assert!(is_sustained_motion(moving, buffer.len()));
}

#[test]
fn motion_below_sixty_percent_is_not_sustained() {
    let mut buffer = MotionBuffer::new();
    buffer.push(create_sample(1, 3.0, true));
    buffer.push(create_sample(2, 3.0, true));
    buffer.push(create_sample(3, 0.0, false));
    buffer.push(create_sample(4, 0.0, false));
    buffer.push(create_sample(5, 0.0, false));

    let moving = motion_count(&buffer);
    assert!((moving as f64 / buffer.len() as f64 - 0.4).abs() < 0.000_001);
    assert!(!is_sustained_motion(moving, buffer.len()));
}

#[test]
fn sustained_motion_threshold_for_short_windows() {
    assert!(is_sustained_motion(1, 1));
    assert!(!is_sustained_motion(0, 1));
    assert!(is_sustained_motion(2, 3));
    assert!(!is_sustained_motion(1, 2));
    assert!(is_sustained_motion(0, 0));
    assert!(is_sustained_motion(3, 5));
    assert!(!is_sustained_motion(2, 5));
}

#[test]
fn new_tracker_contains_no_devices() {
    let tracker: MotionTracker<Sample> = MotionTracker::new();

    assert!(tracker.is_empty());
    assert_eq!(tracker.device_count(), 0);
    assert!(!tracker.contains_device("ORBI-GPS-001"));
    assert_eq!(tracker.sample_count("ORBI-GPS-001"), 0);
    assert!(!tracker.has_full_window("ORBI-GPS-001"));
    assert!(tracker.buffer("ORBI-GPS-001").is_none());
}

#[test]
fn update_creates_a_buffer_for_a_new_device() {
    let mut tracker = MotionTracker::new();

    tracker.update("ORBI-GPS-001".to_string(), create_sample(1, 4.0, true));

    assert!(tracker.contains_device("ORBI-GPS-001"));
    assert_eq!(tracker.device_count(), 1);
    assert_eq!(tracker.sample_count("ORBI-GPS-001"), 1);
    let buffer = tracker.buffer("ORBI-GPS-001").unwrap();
    assert_eq!(window(buffer), vec![create_sample(1, 4.0, true)]);
}

#[test]
fn devices_have_independent_motion_buffers() {
    let mut tracker = MotionTracker::new();

    tracker.update("ORBI-GPS-001".to_string(), create_sample(1, 4.0, true));
    tracker.update("ORBI-GPS-001".to_string(), create_sample(2, 6.0, true));
    tracker.update("ORBI-GPS-002".to_string(), create_sample(1, 0.0, false));

    assert_eq!(tracker.device_count(), 2);
    assert_eq!(tracker.sample_count("ORBI-GPS-001"), 2);
    assert_eq!(tracker.sample_count("ORBI-GPS-002"), 1);

    let first = tracker.buffer("ORBI-GPS-001").unwrap();
    let second = tracker.buffer("ORBI-GPS-002").unwrap();
    assert!((average_vibration(first) - 5.0).abs() < 0.000_001);
    assert!((average_vibration(second) - 0.0).abs() < 0.000_001);
}

#[test]
fn one_device_reaching_full_window_does_not_affect_another() {
    let mut tracker = MotionTracker::new();

    for second in 1..=5 {
        tracker.update("ORBI-GPS-001".to_string(), create_sample(second, 4.0, true));
    }

    tracker.update("ORBI-GPS-002".to_string(), create_sample(1, 0.0, false));

    assert!(tracker.has_full_window("ORBI-GPS-001"));
    assert!(!tracker.has_full_window("ORBI-GPS-002"));

    assert_eq!(tracker.sample_count("ORBI-GPS-001"), 5);
    assert_eq!(tracker.sample_count("ORBI-GPS-002"), 1);
}

#[test]
fn device_buffer_retains_only_the_latest_five_samples() {
    let mut tracker = MotionTracker::new();

    for second in 1..=6 {
        tracker.update("ORBI-GPS-001".to_string(), create_sample(second, second as f64, true));
    }

    assert_eq!(tracker.sample_count("ORBI-GPS-001"), 5);
    assert!(tracker.has_full_window("ORBI-GPS-001"));
    let buffer = tracker.buffer("ORBI-GPS-001").unwrap();
    assert!((average_vibration(buffer) - 4.0).abs() < 0.000_001);
}

#[test]
fn remove_device_deletes_only_that_devices_history() {
    let mut tracker = MotionTracker::new();

    tracker.update("ORBI-GPS-001".to_string(), create_sample(1, 4.0, true));
    tracker.update("ORBI-GPS-002".to_string(), create_sample(1, 0.0, false));

    let removed = tracker.remove_device("ORBI-GPS-001");

    assert!(removed);
    assert!(!tracker.contains_device("ORBI-GPS-001"));
    assert!(tracker.contains_device("ORBI-GPS-002"));
    assert_eq!(tracker.device_count(), 1);
}

#[test]
fn removing_an_unknown_device_returns_false() {
    let mut tracker: MotionTracker<Sample> = MotionTracker::new();

    let removed = tracker.remove_device("UNKNOWN-DEVICE");

    assert!(!removed);
    assert!(tracker.is_empty());
}

#[test]
fn clear_removes_all_device_histories() {
    let mut tracker = MotionTracker::new();

    tracker.update("ORBI-GPS-001".to_string(), create_sample(1, 4.0, true));
    tracker.update("ORBI-GPS-002".to_string(), create_sample(1, 0.0, false));

    tracker.clear();

    assert!(tracker.is_empty());
    assert_eq!(tracker.device_count(), 0);
    assert!(tracker.buffer("ORBI-GPS-001").is_none());
    assert!(tracker.buffer("ORBI-GPS-002").is_none());
}
