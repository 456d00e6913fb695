use vclip_media::engine_step::EngineBook;
use vclip_media::temporal::{DetectionTrigger, TemporalConfig};

fn conf(v: f64) -> u64 {
    v.to_bits()
}

#[test]
fn frames_alternate_keyframes_and_gaps() {
    let mut e = EngineBook::new(TemporalConfig::default());
    let a = e.plan_frame(false, 11, conf(1.0), 0, 0);
    assert_eq!((a.frame_idx, a.reset_tracks, a.trigger), (0, false, Some(DetectionTrigger::FirstFrame)));
    for i in 1..5u64 {
        let a = e.plan_frame(false, 11, conf(1.0), 1, i * 33);
        assert_eq!(a.trigger, None);
    }
    assert_eq!(e.plan_frame(false, 11, conf(1.0), 1, 165).trigger, Some(DetectionTrigger::Keyframe));
    let c = e.counts();
    assert_eq!((c.frames_processed, c.keyframe_count, c.gap_frame_count, c.scene_cut_count), (6, 2, 4, 0));
}

#[test]
fn scene_cut_resets_tracks_and_forces_detection() {
    let mut e = EngineBook::new(TemporalConfig::default());
    e.plan_frame(true, 11, conf(1.0), 0, 0);
    e.plan_frame(false, 11, conf(1.0), 1, 33);
    let a = e.plan_frame(true, 22, conf(1.0), 1, 66);
    assert!(a.reset_tracks);
    assert_eq!(a.trigger, Some(DetectionTrigger::SceneCut));
    assert_eq!(e.counts().scene_cut_count, 2);
}

#[test]
fn inference_times_faces_and_reset() {
    let mut e = EngineBook::new(TemporalConfig::default());
    e.plan_frame(false, 1, conf(1.0), 0, 0);
    e.record_inference_time(12);
    e.record_inference_time(30);
    e.record_inference_time(5);
    e.record_faces(2);
    let c = e.counts();
    assert_eq!((c.total_inference_time_ms, c.peak_inference_time_ms, c.faces_detected), (47, 30, 2));
    e.reset();
    assert_eq!(e.frame_count(), 0);
    assert_eq!(e.counts().frames_processed, 1);
    assert_eq!(e.plan_frame(false, 1, conf(1.0), 0, 0).trigger, Some(DetectionTrigger::FirstFrame));
}
