use vclip_media::encoding::{push_arg, push_number_arg};
use vclip_media::layout::{ActiveSpeaker, SplitEvaluator, SplitLayout, TrackerStats, VideoLayout};
use vclip_media::text::{join_path, push_decimal, push_signed_decimal, str_eq};

#[test]
fn test_crop_dimensions() {
    // For a 1920x1080 video with 45% crop:
    let width = 1920u32;
    let height = 1080u32;
    let crop_fraction = 0.45;

    let crop_width = (width as f64 * crop_fraction).round() as u32;
    assert_eq!(crop_width, 864);

    let right_start_x = width - crop_width;
    assert_eq!(right_start_x, 1056);

    // Tile height for 9:8 aspect
    let tile_height = ((crop_width as f64 * 8.0 / 9.0).round() as u32).min(height);
    assert_eq!(tile_height, 768);
}

#[test]
fn decimal_text() {
    let mut s = String::from("n=");
    push_decimal(&mut s, 0);
    push_decimal(&mut s, 1234567890);
    assert_eq!(s, "n=01234567890");
    let mut s = String::new();
    push_signed_decimal(&mut s, -42);
    push_signed_decimal(&mut s, 7);
    assert_eq!(s, "-427");
    let mut s = String::new();
    push_signed_decimal(&mut s, i64::MIN);
    assert_eq!(s, i64::MIN.to_string());
}

#[test]
fn path_joining() {
    assert_eq!(join_path("/app/models", "a.onnx"), "/app/models/a.onnx");
    assert_eq!(join_path("/app/models/", "a.onnx"), "/app/models/a.onnx");
    assert_eq!(join_path("", "a.onnx"), "a.onnx");
    assert_eq!(join_path("/app", "/etc/x"), "/etc/x");
}

#[test]
fn string_equality() {
    assert!(str_eq("abc", "abc"));
    assert!(!str_eq("abc", "abd"));
    assert!(!str_eq("abc", "ab"));
}

#[test]
fn argument_lists() {
    let mut a = vec!["-y".to_string()];
    push_arg(&mut a, "-crf");
    push_number_arg(&mut a, 23);
    assert_eq!(a, vec!["-y", "-crf", "23"]);
}

#[test]
fn records() {
    let s = TrackerStats::default();
    assert_eq!((s.active_tracks, s.confirmed_tracks, s.total_tracks_created, s.scene_cuts_handled), (0, 0, 0, 0));
    assert_ne!(VideoLayout::SinglePerson, VideoLayout::TwoPeopleSideBySide);
    assert_ne!(ActiveSpeaker::Left, ActiveSpeaker::Silence);
    assert_ne!(SplitLayout::SplitTopBottom, SplitLayout::FullFrame);
}

fn frame(scores: &[f64]) -> Vec<u64> {
    scores.iter().map(|s| s.to_bits()).collect()
}

#[test]
fn dual_activity_needs_three_frames_and_half() {
    let two = frame(&[0.9, 0.9]);
    let one = frame(&[0.9, 0.2]);
    assert!(!SplitEvaluator::has_sustained_dual_activity(&vec![]));
    assert!(!SplitEvaluator::has_sustained_dual_activity(&vec![two.clone(), two.clone()]));
    assert!(SplitEvaluator::has_sustained_dual_activity(&vec![two.clone(), two.clone(), two.clone(), two.clone()]));
    // Three dual frames out of six is exactly half.
    let mut frames = vec![two.clone(), two.clone(), two.clone(), one.clone(), one.clone(), one.clone()];
    assert!(SplitEvaluator::has_sustained_dual_activity(&frames));
    frames.push(one.clone());
    assert!(!SplitEvaluator::has_sustained_dual_activity(&frames));
    // 0.45 itself is not above the threshold.
    let edge = frame(&[0.45, 0.45]);
    assert!(!SplitEvaluator::has_sustained_dual_activity(&vec![edge.clone(), edge.clone(), edge]));
}

#[test]
fn distinct_track_ids_lists_each_track_once() {
    let frames = vec![vec![3, 7], vec![7], vec![], vec![3, 9, 3]];
    let ids = SplitEvaluator::distinct_track_ids(&frames);
    assert_eq!(ids, vec![3, 7, 9]);
    assert!(SplitEvaluator::distinct_track_ids(&vec![vec![5], vec![5, 5]]).len() < 2);
    assert!(SplitEvaluator::distinct_track_ids(&vec![]).is_empty());
}
