use vclip_media::engine_config::{
    youtube_inference_size, EngineMode, FaceEngineConfig, KalmanTrackerConfig, DEFAULT_INF_HEIGHT, DEFAULT_INF_WIDTH,
};
use vclip_media::face_timeline::{
    FaceBBox, FaceEntry, FaceTimeline, FaceTimelineEntry, TimelineExporter, TimelineStats,
    TIMELINE_VERSION,
};

fn b(v: f64) -> u64 {
    v.to_bits()
}

fn create_test_timeline() -> FaceTimeline {
    TimelineExporter::builder(
        EngineMode::Optimized,
        960,
        540,
        5,
        b(0.3),
        1920,
        1080,
        b(30.0),
        60000,
    )
}

fn face(track_id: u32, x: f64, confidence: f64) -> FaceEntry {
    FaceEntry {
        track_id,
        bbox: FaceBBox { x_bits: b(x), y_bits: b(0.1), w_bits: b(0.1), h_bits: b(0.15) },
        confidence_bits: b(confidence),
    }
}

#[test]
fn test_timeline_creation() {
    let timeline = create_test_timeline();
    assert_eq!(timeline.version, TIMELINE_VERSION);
    assert_eq!(timeline.video_info.width, 1920);
    assert_eq!(timeline.video_info.height, 1080);
    assert_eq!(timeline.engine_config.inference_size, [960, 540]);
}

#[test]
fn test_track_ids() {
    let mut timeline = create_test_timeline();

    // Add some entries
    timeline.entries.push(FaceTimelineEntry {
        frame_idx: 0,
        timestamp_ms: 0,
        is_keyframe: true,
        scene_hash: 123,
        faces: vec![
            FaceEntry {
                track_id: 0,
                bbox: FaceBBox { x_bits: b(0.2), y_bits: b(0.1), w_bits: b(0.1), h_bits: b(0.15) },
                confidence_bits: b(0.9),
            },
            FaceEntry {
                track_id: 1,
                bbox: FaceBBox { x_bits: b(0.5), y_bits: b(0.2), w_bits: b(0.1), h_bits: b(0.15) },
                confidence_bits: b(0.8),
            },
        ],
    });

    timeline.entries.push(FaceTimelineEntry {
        frame_idx: 1,
        timestamp_ms: 33,
        is_keyframe: false,
        scene_hash: 123,
        faces: vec![FaceEntry {
            track_id: 0,
            bbox: FaceBBox { x_bits: b(0.21), y_bits: b(0.1), w_bits: b(0.1), h_bits: b(0.15) },
            confidence_bits: b(0.85),
        }],
    });

    let track_ids = timeline.track_ids();
    assert_eq!(track_ids, vec![0, 1]);
}

#[test]
fn test_track_lifespans() {
    let mut timeline = create_test_timeline();

    for i in 0..10 {
        timeline.entries.push(FaceTimelineEntry {
            frame_idx: i,
            timestamp_ms: i * 33,
            is_keyframe: i % 5 == 0,
            scene_hash: 123,
            faces: if i < 8 {
                vec![FaceEntry {
                    track_id: 0,
                    bbox: FaceBBox { x_bits: b(0.2), y_bits: b(0.1), w_bits: b(0.1), h_bits: b(0.15) },
                    confidence_bits: b(0.9),
                }]
            } else {
                vec![]
            },
        });
    }

    let lifespans = timeline.track_lifespans();
    assert_eq!(lifespans.get(&0), Some(&(0, 7)));
}

#[test]
fn test_keyframe_indices() {
    let mut timeline = create_test_timeline();

    for i in 0..10 {
        timeline.entries.push(FaceTimelineEntry {
            frame_idx: i,
            timestamp_ms: i * 33,
            is_keyframe: i % 5 == 0,
            scene_hash: 123,
            faces: vec![],
        });
    }

    let keyframes = timeline.keyframe_indices();
    assert_eq!(keyframes, vec![0, 5]);
}

#[test]
fn builder_records_engine_and_video() {
    let t = create_test_timeline();
    assert_eq!(t.engine_config.mode, "optimized");
    assert_eq!(t.engine_config.detect_every_n, 5);
    assert_eq!(t.engine_config.confidence_threshold_bits, b(0.3));
    assert_eq!(t.video_info.fps_bits, b(30.0));
    assert_eq!(t.video_info.duration_ms, 60000);
    assert!(t.entries.is_empty());
    assert_eq!(t.stats.throughput_multiplier_bits, b(1.0));
    assert_eq!(EngineMode::Legacy.name(), "legacy");
    assert_eq!(EngineMode::default(), EngineMode::Optimized);
}

fn entry(frame_idx: u64, scene_hash: u64, faces: Vec<FaceEntry>) -> FaceTimelineEntry {
    FaceTimelineEntry { frame_idx, timestamp_ms: frame_idx * 40, is_keyframe: false, scene_hash, faces }
}

#[test]
fn queries_over_frames() {
    let mut t = create_test_timeline();
    t.add_frame(entry(0, 0, vec![face(7, 0.1, 0.9), face(3, 0.2, 0.8), face(7, 0.3, 0.7)]));
    t.add_frame(entry(1, 11, vec![face(3, 0.4, 0.6)]));
    t.add_frame(entry(2, 11, vec![]));
    t.add_frame(entry(3, 22, vec![face(7, 0.5, 0.5)]));
    t.add_frame(entry(4, 0, vec![face(9, 0.6, 0.4)]));
    t.add_frame(entry(5, 33, vec![face(3, 0.7, 0.3)]));

    assert_eq!(t.track_ids(), vec![3, 7, 9]);

    // The first face of the track in each frame where it appears.
    let frames = t.track_frames(7);
    assert_eq!(frames.len(), 2);
    assert_eq!(frames[0].0, 0);
    assert_eq!(frames[0].1, face(7, 0.1, 0.9));
    assert_eq!(frames[1].0, 3);

    let counts = t.face_counts();
    assert_eq!(counts, vec![(0, 3), (1, 1), (2, 0), (3, 1), (4, 1), (5, 1)]);

    // A cut needs two known, different hashes in a row.
    assert_eq!(t.scene_cut_indices(), vec![3]);

    let spans = t.track_lifespans();
    assert_eq!(spans.len(), 3);
    assert_eq!(spans.get(&7), Some(&(0, 3)));
    assert_eq!(spans.get(&3), Some(&(0, 5)));
    assert_eq!(spans.get(&9), Some(&(4, 4)));
}

#[test]
fn finalize_replaces_stats() {
    let mut t = create_test_timeline();
    let stats = TimelineStats {
        frames_processed: 10,
        keyframe_count: 2,
        gap_frame_count: 8,
        faces_detected: 10,
        scene_cut_count: 0,
        throughput_multiplier_bits: b(5.0),
        avg_inference_time_ms_bits: b(6.5),
        peak_inference_time_ms: 9,
        backend: "cpu".to_string(),
        cpu_tier: "avx2".to_string(),
    };
    t.finalize(stats);
    assert_eq!(t.stats.frames_processed, 10);
    assert_eq!(t.stats.backend, "cpu");
    assert_eq!(t.stats.throughput_multiplier_bits, b(5.0));
}

#[test]
fn test_engine_mode_display() {
    assert_eq!(EngineMode::Optimized.name(), "optimized");
    assert_eq!(EngineMode::Legacy.name(), "legacy");
}

#[test]
fn test_config_default() {
    let config = FaceEngineConfig::default();
    assert_eq!(config.mode, EngineMode::Optimized);
    assert_eq!(config.inf_width, DEFAULT_INF_WIDTH);
    assert_eq!(config.inf_height, DEFAULT_INF_HEIGHT);
    assert_eq!(config.padding_value, 0);
}

#[test]
fn test_config_legacy() {
    let config = FaceEngineConfig::legacy();
    assert_eq!(config.mode, EngineMode::Legacy);
}

#[test]
fn test_config_youtube() {
    let config = FaceEngineConfig::youtube();
    assert_eq!(config.inf_width, 960);
    assert_eq!(config.inf_height, 540);
}

#[test]
fn test_engine_config_default() {
    let config = FaceEngineConfig::default();

    assert_eq!(config.mode, EngineMode::Optimized);
    assert_eq!(config.inf_width, 960);
    assert_eq!(config.inf_height, 540);
}

#[test]
fn engine_presets() {
    let d = FaceEngineConfig::default();
    assert_eq!(d.tracker, KalmanTrackerConfig::default());
    assert_eq!(d.tracker.max_age, 30);
    assert_eq!(d.tracker.min_hits, 3);
    assert_eq!(f64::from_bits(d.tracker.confidence_decay_bits), 0.95);
    assert_eq!(f64::from_bits(d.tracker.process_noise_vel_bits), 0.1);
    assert_eq!(f64::from_bits(d.confidence_threshold_bits), 0.3);
    assert!(d.log_metrics);
    assert_eq!(FaceEngineConfig::fast().temporal.detect_every_n, 10);
    assert_eq!(FaceEngineConfig::quality().temporal.detect_every_n, 3);
    assert_eq!(FaceEngineConfig::quality().inf_width, 960);
}

#[test]
fn test_youtube_optimized_sizes() {
    // 1080p should use 960x540
    assert_eq!(youtube_inference_size(1920, 1080), (960, 540));
    // 720p should use 640x360
    assert_eq!(youtube_inference_size(1280, 720), (640, 360));
    assert_eq!(youtube_inference_size(3840, 2160), (960, 540));
    assert_eq!(youtube_inference_size(2560, 1440), (640, 360));
    assert_eq!(youtube_inference_size(1000, 1000), (DEFAULT_INF_WIDTH, DEFAULT_INF_HEIGHT));
}
