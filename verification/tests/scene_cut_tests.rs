use vclip_media::scene_cut::{SceneCutConfig, SceneCutDetector};

#[test]
fn test_config_defaults() {
    let config = SceneCutConfig::default();
    assert_eq!(config.bins_per_channel, 8);
    assert_eq!(config.min_cut_interval, 5);
}

#[test]
fn scene_cut_test_detector_creation() {
    let detector = SceneCutDetector::new(0.5f64.to_bits());
    assert_eq!(detector.cut_count(), 0);
}

#[test]
fn cuts_need_low_similarity_after_the_debounce_interval() {
    let mut d = SceneCutDetector::new(0.3f64.to_bits());
    let low = Some(0.1f64.to_bits());
    let high = Some(0.9f64.to_bits());
    // First frame: nothing to compare with.
    assert!(!d.check_frame(None));
    // Five frames of debounce, even with low similarity.
    for _ in 0..5 {
        assert!(!d.check_frame(low));
    }
    assert!(!d.check_frame(high));
    assert!(d.check_frame(low));
    assert_eq!(d.cut_count(), 1);
    // Debounced again right after the cut.
    assert!(!d.check_frame(low));
    d.reset();
    assert!(!d.check_frame(low));
    assert_eq!(d.cut_count(), 1);
    let cfg = SceneCutConfig { min_cut_interval: 0, ..SceneCutConfig::default() };
    let mut e = SceneCutDetector::with_config(cfg);
    assert!(e.check_frame(low));
    assert!(!e.check_frame(Some(0.3f64.to_bits())));
}

#[test]
fn scene_cut_same_frame_is_no_cut() {
    let mut detector = SceneCutDetector::with_config(SceneCutConfig::default());
    // The same frame twice: nothing to compare with, then identical
    // histograms (similarity 1.0).
    assert!(!detector.check_frame(None));
    assert!(!detector.check_frame(Some(1.0f64.to_bits())));
}
