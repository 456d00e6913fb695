use vclip_media::temporal::{DecimatorStats, DetectionTrigger, TemporalConfig, TemporalDecimator};

fn conf(v: f64) -> u64 {
    v.to_bits()
}

#[test]
fn temporal_test_default_config() {
    let config = TemporalConfig::default();
    assert_eq!(config.detect_every_n, 5);
    assert!(config.detect_interval_ms.is_none());
}

#[test]
fn test_first_frame_always_detects() {
    let mut decimator = TemporalDecimator::with_defaults();
    let trigger = decimator.should_detect(conf(1.0), 0, 0);
    assert_eq!(trigger, Some(DetectionTrigger::FirstFrame));
}

#[test]
fn test_keyframe_interval() {
    let config = TemporalConfig {
        detect_every_n: 3,
        ..Default::default()
    };
    let mut decimator = TemporalDecimator::new(config);

    // Frame 0: first frame
    assert!(decimator.should_detect(conf(1.0), 1, 0).is_some());
    // Frames 1, 2: gap
    assert!(decimator.should_detect(conf(1.0), 1, 33).is_none());
    assert!(decimator.should_detect(conf(1.0), 1, 66).is_none());
    // Frame 3: keyframe
    let trigger = decimator.should_detect(conf(1.0), 1, 100);
    assert_eq!(trigger, Some(DetectionTrigger::Keyframe));
}

#[test]
fn test_scene_cut_trigger() {
    let mut decimator = TemporalDecimator::with_defaults();

    // First frame
    decimator.should_detect(conf(1.0), 1, 0);
    // Current scene hash
    decimator.notify_scene_cut(12345);

    // Notify scene cut
    decimator.notify_scene_cut(67890);

    // Next frame should trigger scene cut
    let trigger = decimator.should_detect(conf(1.0), 1, 33);
    assert_eq!(trigger, Some(DetectionTrigger::SceneCut));
}

#[test]
fn test_no_tracks_trigger() {
    let config = TemporalConfig {
        min_detection_interval: 1,
        ..Default::default()
    };
    let mut decimator = TemporalDecimator::new(config);

    // First frame
    decimator.should_detect(conf(1.0), 1, 0);
    // Gap frame
    decimator.should_detect(conf(1.0), 1, 33);
    // No tracks - should trigger
    let trigger = decimator.should_detect(conf(1.0), 0, 66);
    assert_eq!(trigger, Some(DetectionTrigger::NoTracks));
}

#[test]
fn test_low_confidence_trigger() {
    let config = TemporalConfig {
        min_confidence_bits: conf(0.5),
        min_detection_interval: 1,
        ..Default::default()
    };
    let mut decimator = TemporalDecimator::new(config);

    // First frame
    decimator.should_detect(conf(1.0), 1, 0);
    // Gap
    decimator.should_detect(conf(1.0), 1, 33);
    // Low confidence
    let trigger = decimator.should_detect(conf(0.3), 1, 66);
    assert_eq!(trigger, Some(DetectionTrigger::LowConfidence));
}

#[test]
fn test_statistics() {
    let config = TemporalConfig {
        detect_every_n: 5,
        ..Default::default()
    };
    let mut decimator = TemporalDecimator::new(config);

    // Process 20 frames
    for i in 0..20 {
        decimator.should_detect(conf(1.0), 1, i * 33);
    }

    let stats = decimator.stats();
    // First frame + keyframes at 5, 10, 15 = 4 keyframes
    // But first frame is counted separately
    assert!(stats.keyframe_count >= 3);
    assert!(stats.gap_frame_count > 10);
    let total = stats.keyframe_count + stats.gap_frame_count;
    let decimation_ratio = if total > 0 { stats.gap_frame_count as f64 / total as f64 } else { 0.0 };
    assert!(decimation_ratio > 0.5);
}

#[test]
fn test_time_based_detection() {
    let config = TemporalConfig::with_interval(100); // 100ms
    let mut decimator = TemporalDecimator::new(config);

    // First frame at t=0
    assert!(decimator.should_detect(conf(1.0), 1, 0).is_some());
    // t=50ms - gap
    assert!(decimator.should_detect(conf(1.0), 1, 50).is_none());
    // t=100ms - should trigger
    let trigger = decimator.should_detect(conf(1.0), 1, 100);
    assert_eq!(trigger, Some(DetectionTrigger::TimeInterval));
}

#[test]
fn presets() {
    let fast = TemporalConfig::fast();
    assert_eq!(fast.detect_every_n, 10);
    assert_eq!(fast.min_confidence_bits, conf(0.5));
    assert_eq!(fast.max_gap_frames, 50);
    let quality = TemporalConfig::quality();
    assert_eq!(quality.detect_every_n, 3);
    assert_eq!(quality.min_confidence_bits, conf(0.3));
    assert_eq!(quality.max_gap_frames, 15);
    let d = TemporalConfig::default();
    assert_eq!(d.scene_cut_threshold_bits, conf(0.3));
    assert_eq!(d.min_confidence_bits, conf(0.4));
    assert_eq!(d.drift_threshold_bits, conf(0.15));
    assert_eq!(d.max_gap_frames, 30);
    assert_eq!(d.min_detection_interval, 2);
}

#[test]
fn exact_counts_over_twenty_frames() {
    let mut decimator = TemporalDecimator::with_defaults();
    let mut detections = Vec::new();
    for i in 0..20u64 {
        if decimator.should_detect(conf(0.9), 1, i * 33).is_some() {
            detections.push(i);
        }
    }
    assert_eq!(detections, vec![0, 5, 10, 15]);
    let s = decimator.stats();
    assert_eq!(s.keyframe_count, 3);
    assert_eq!(s.gap_frame_count, 16);
    // Every frame after the first is counted exactly once.
    assert_eq!(s.keyframe_count + s.gap_frame_count + s.scene_cut_count + s.low_confidence_count + s.no_track_count, 19);
    assert_eq!(decimator.frame_count(), 20);
}

#[test]
fn scene_cut_waits_for_known_hash() {
    let mut d = TemporalDecimator::with_defaults();
    d.should_detect(conf(1.0), 1, 0);
    d.notify_scene_cut(42); // first hash: no cut
    assert_eq!(d.should_detect(conf(1.0), 1, 33), None);
    d.notify_scene_cut(42); // same hash: no cut
    assert_eq!(d.should_detect(conf(1.0), 1, 66), None);
    d.notify_scene_cut(43);
    assert_eq!(d.should_detect(conf(0.0), 0, 99), Some(DetectionTrigger::SceneCut));
    assert_eq!(d.stats().scene_cut_count, 1);
}

#[test]
fn swap_risk_forces_detection_next_frame() {
    let mut d = TemporalDecimator::with_defaults();
    assert_eq!(d.should_detect(conf(1.0), 1, 0), Some(DetectionTrigger::FirstFrame));
    d.notify_swap_risk();
    assert_eq!(d.should_detect(conf(1.0), 1, 33), Some(DetectionTrigger::SwapRisk));
    // Answered once: the following frames are gap frames again.
    assert_eq!(d.should_detect(conf(1.0), 1, 66), None);
    assert_eq!(d.stats().keyframe_count, 1);
    assert_eq!(d.stats().gap_frame_count, 1);
    // A pending scene cut takes precedence and also answers the swap risk.
    d.notify_scene_cut(7);
    d.notify_scene_cut(8);
    d.notify_swap_risk();
    assert_eq!(d.should_detect(conf(1.0), 1, 99), Some(DetectionTrigger::SceneCut));
    assert_eq!(d.should_detect(conf(1.0), 1, 132), None);
}

#[test]
fn reset_restores_initial_state() {
    let mut d = TemporalDecimator::with_defaults();
    for i in 0..7u64 {
        d.should_detect(conf(1.0), 1, i);
    }
    d.reset();
    assert_eq!(d.frame_count(), 0);
    assert_eq!(*d.stats(), DecimatorStats::default());
    assert_eq!(*d.config(), TemporalConfig::default());
    assert_eq!(d.should_detect(conf(1.0), 1, 0), Some(DetectionTrigger::FirstFrame));
}

#[test]
fn labels() {
    assert_eq!(DetectionTrigger::Keyframe.label(), "keyframe");
    assert_eq!(DetectionTrigger::SceneCut.label(), "scene_cut");
    assert_eq!(DetectionTrigger::LowConfidence.label(), "low_confidence");
    assert_eq!(DetectionTrigger::NoTracks.label(), "no_tracks");
    assert_eq!(DetectionTrigger::FirstFrame.label(), "first_frame");
    assert_eq!(DetectionTrigger::TimeInterval.label(), "time_interval");
    assert_eq!(DetectionTrigger::PositionDrift.label(), "position_drift");
    assert_eq!(DetectionTrigger::SwapRisk.label(), "swap_risk");
}

#[test]
fn nan_confidence_is_not_low() {
    let config = TemporalConfig { min_detection_interval: 1, ..Default::default() };
    let mut d = TemporalDecimator::new(config);
    d.should_detect(conf(1.0), 1, 0);
    assert_eq!(d.should_detect(f64::NAN.to_bits(), 1, 33), None);
    assert_eq!(d.should_detect(conf(-0.5), 1, 66), Some(DetectionTrigger::LowConfidence));
}

#[test]
fn test_temporal_decimation_keyframe_pattern() {
    let config = TemporalConfig {
        detect_every_n: 5,
        ..Default::default()
    };
    let mut decimator = TemporalDecimator::new(config);

    let mut keyframe_count = 0;
    for i in 0..20 {
        if decimator.should_detect(conf(0.9), 1, i * 33).is_some() {
            keyframe_count += 1;
        }
    }

    // Should detect every 5 frames: 0, 5, 10, 15
    assert_eq!(keyframe_count, 4);
}

#[test]
fn temporal_low_confidence_forces_detection() {
    let config = TemporalConfig { detect_every_n: 10, min_confidence_bits: conf(0.5), ..TemporalConfig::default() };
    let mut decimator = TemporalDecimator::new(config);
    decimator.should_detect(conf(0.9), 1, 0);
    // Low confidence forces a detection once the cooldown has passed.
    assert_eq!(decimator.should_detect(conf(0.3), 1, 33), None);
    assert_eq!(decimator.should_detect(conf(0.3), 1, 66), Some(DetectionTrigger::LowConfidence));
}
