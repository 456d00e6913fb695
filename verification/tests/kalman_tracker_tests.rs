use vclip_media::engine_config::KalmanTrackerConfig;
use vclip_media::kalman_tracker::{match_detections, KalmanTracker, TrackRecord};

fn b(v: f64) -> u64 {
    v.to_bits()
}

/// IoU of two boxes `(x, y, w, h)`.
fn iou(a: (f64, f64, f64, f64), c: (f64, f64, f64, f64)) -> f64 {
    let x1 = a.0.max(c.0);
    let y1 = a.1.max(c.1);
    let x2 = (a.0 + a.2).min(c.0 + c.2);
    let y2 = (a.1 + a.3).min(c.1 + c.3);
    let inter = (x2 - x1).max(0.0) * (y2 - y1).max(0.0);
    let union = a.2 * a.3 + c.2 * c.3 - inter;
    if union > 0.0 { inter / union } else { 0.0 }
}

/// One keyframe update with detections that sit where the tracks were:
/// IoU 1.0 between a track and the detection at the same index, 0 otherwise.
fn update_same_positions(tracker: &mut KalmanTracker, detections: usize, scene_hash: u64) -> Vec<u32> {
    tracker.begin_update(scene_hash);
    let tracks = tracker.active_count();
    let iou_rows: Vec<Vec<u64>> = (0..tracks)
        .map(|i| (0..detections).map(|j| if i == j { b(1.0) } else { b(0.0) }).collect())
        .collect();
    let (matches, _, _) = match_detections(&iou_rows, detections, b(0.3));
    tracker.finish_update(&matches, detections, scene_hash);
    tracker.confirmed_track_ids()
}

#[test]
fn test_new_track() {
    let track = TrackRecord::new(0, 12345);
    assert_eq!(track.track_id, 0);
    assert_eq!(track.hits, 1);
    assert_eq!(track.age, 0);
    assert_eq!(track.scene_hash, 12345);
    assert!(!track.confirmed);
}

#[test]
fn test_tracker_update() {
    let mut tracker = KalmanTracker::new();

    let tracks = update_same_positions(&mut tracker, 2, 12345);
    // First update - tracks need min_hits to be confirmed
    assert_eq!(tracker.active_count(), 2);
    assert_eq!(tracks.len(), 0);

    // Second update
    let tracks = update_same_positions(&mut tracker, 2, 12345);
    assert_eq!(tracks.len(), 0); // Need 3 hits

    // Third update
    let tracks = update_same_positions(&mut tracker, 2, 12345);
    assert_eq!(tracks.len(), 2); // Now confirmed
}

#[test]
fn test_scene_cut_clears_tracks() {
    let mut tracker = KalmanTracker::new();
    update_same_positions(&mut tracker, 1, 12345);
    assert_eq!(tracker.active_count(), 1);

    // Scene cut should clear tracks
    tracker.handle_scene_cut(67890);
    assert_eq!(tracker.active_count(), 0);
    assert_eq!(tracker.current_scene_hash(), 67890);
}

#[test]
fn test_scene_cut_via_update() {
    let mut tracker = KalmanTracker::new();

    // Create track in scene 1
    update_same_positions(&mut tracker, 1, 12345);
    assert_eq!(tracker.active_count(), 1);

    // Update with different scene should reset
    update_same_positions(&mut tracker, 1, 67890);

    // Old track should be gone, new track created
    assert_eq!(tracker.active_count(), 1);
    assert_eq!(tracker.current_scene_hash(), 67890);
    assert_eq!(tracker.records()[0].track_id, 1);
    assert_eq!(tracker.records()[0].scene_hash, 67890);
}

#[test]
fn test_track_deletion_after_max_age() {
    let config = KalmanTrackerConfig {
        max_age: 3,
        min_hits: 1,
        ..Default::default()
    };
    let mut tracker = KalmanTracker::with_config(config);

    // Create track
    update_same_positions(&mut tracker, 1, 12345);
    assert_eq!(tracker.active_count(), 1);

    // Predict without update
    tracker.predict();
    tracker.predict();
    tracker.predict();
    assert_eq!(tracker.active_count(), 1);
    tracker.predict(); // Should delete after max_age

    assert_eq!(tracker.active_count(), 0);
}

#[test]
fn test_stats() {
    let mut tracker = KalmanTracker::new();
    update_same_positions(&mut tracker, 1, 12345);

    let stats = tracker.stats();
    assert_eq!(stats.active_tracks, 1);
    assert_eq!(stats.total_tracks_created, 1);
    assert_eq!(stats.scene_cuts_handled, 0);
}

#[test]
fn kalman_tracker_test_iou_calculation() {
    let a = (0.0, 0.0, 100.0, 100.0);
    let c = (50.0, 50.0, 100.0, 100.0);
    // Overlap: 50x50 = 2500; union: 17500.
    let v = iou(a, c);
    assert!((v - 0.143).abs() < 0.01);
    // That overlap is below the default matching threshold of 0.3, so the
    // matching leaves the pair apart; a threshold of 0.1 pairs them.
    let threshold = KalmanTrackerConfig::default().iou_threshold_bits;
    let (m, ud, ut) = match_detections(&vec![vec![b(v)]], 1, threshold);
    assert!(m.is_empty());
    assert_eq!((ud, ut), (vec![0], vec![0]));
    let (m, ud, ut) = match_detections(&vec![vec![b(v)]], 1, b(0.1));
    assert_eq!(m, vec![(0, 0)]);
    assert!(ud.is_empty() && ut.is_empty());
}

#[test]
fn greedy_matching_prefers_highest_iou() {
    // Track 0 overlaps both detections; track 1 only detection 0.
    let rows = vec![vec![b(0.6), b(0.5)], vec![b(0.7), b(0.0)]];
    let (m, ud, ut) = match_detections(&rows, 2, b(0.3));
    assert_eq!(m, vec![(1, 0), (0, 1)]);
    assert!(ud.is_empty());
    assert!(ut.is_empty());

    // Below the threshold nothing is assigned.
    let rows = vec![vec![b(0.2)]];
    let (m, ud, ut) = match_detections(&rows, 1, b(0.3));
    assert!(m.is_empty());
    assert_eq!(ud, vec![0]);
    assert_eq!(ut, vec![0]);

    // Ties go to the earlier track, then the earlier detection.
    let rows = vec![vec![b(0.5), b(0.5)], vec![b(0.5), b(0.5)]];
    let (m, _, _) = match_detections(&rows, 2, b(0.3));
    assert_eq!(m, vec![(0, 0), (1, 1)]);

    // NaN never matches.
    let rows = vec![vec![f64::NAN.to_bits()]];
    assert!(match_detections(&rows, 1, b(0.3)).0.is_empty());

    // No tracks: every detection unassigned.
    let (m, ud, ut) = match_detections(&vec![], 3, b(0.3));
    assert!(m.is_empty() && ut.is_empty());
    assert_eq!(ud, vec![0, 1, 2]);
}

#[test]
fn update_creates_tracks_for_unassigned_detections_in_order() {
    let mut tracker = KalmanTracker::new();
    tracker.begin_update(7);
    let created = tracker.finish_update(&vec![], 3, 7);
    assert_eq!(created, vec![(0, 0), (1, 1), (2, 2)]);
    tracker.begin_update(7);
    // Track 1 takes detection 0; detections 1 and 2 start tracks 3 and 4.
    let created = tracker.finish_update(&vec![(1, 0)], 3, 7);
    assert_eq!(created, vec![(1, 3), (2, 4)]);
    let ids: Vec<u32> = tracker.records().iter().map(|t| t.track_id).collect();
    assert_eq!(ids, vec![0, 1, 2, 3, 4]);
    let t1 = tracker.track_by_id(1).unwrap();
    assert_eq!((t1.hits, t1.time_since_update, t1.age), (2, 0, 1));
    let t0 = tracker.track_by_id(0).unwrap();
    assert_eq!((t0.hits, t0.time_since_update, t0.age), (1, 1, 1));
    assert!(tracker.track_by_id(9).is_none());
    tracker.hard_reset();
    assert_eq!(tracker.active_count(), 0);
    assert_eq!(tracker.current_scene_hash(), 0);
}

#[test]
fn record_checks() {
    let t = TrackRecord::new(3, 55);
    assert!(t.is_valid_for_scene(55));
    assert!(!t.is_valid_for_scene(56));
    let cfg = KalmanTrackerConfig { max_age: 0, ..Default::default() };
    assert!(!t.should_delete(&cfg));
    let old = TrackRecord { time_since_update: 1, ..t };
    assert!(old.should_delete(&cfg));
}

/// One keyframe update with boxes `(x, y, w, h)`: the IoU matrix between the
/// tracks' last boxes and the detections, then the assignment.
fn update_with_boxes(
    tracker: &mut KalmanTracker,
    track_boxes: &[(f64, f64, f64, f64)],
    detections: &[(f64, f64, f64, f64)],
    scene_hash: u64,
) -> Vec<(usize, u32)> {
    tracker.begin_update(scene_hash);
    let rows: Vec<Vec<u64>> = track_boxes[..tracker.active_count()]
        .iter()
        .map(|t| detections.iter().map(|d| b(iou(*t, *d))).collect())
        .collect();
    let (matches, _, _) = match_detections(&rows, detections.len(), b(0.3));
    tracker.finish_update(&matches, detections.len(), scene_hash)
}

#[test]
fn tracker_continuity_keeps_identity() {
    let mut tracker = KalmanTracker::with_config(KalmanTrackerConfig::default());
    let first = (100.0, 100.0, 50.0, 80.0);
    let created = update_with_boxes(&mut tracker, &[], &[first], 0);
    assert_eq!(created.len(), 1);
    let track_id = created[0].1;
    // A slightly moved face is matched to the same track.
    let created = update_with_boxes(&mut tracker, &[first], &[(105.0, 102.0, 50.0, 80.0)], 0);
    assert!(created.is_empty());
    assert_eq!(tracker.active_count(), 1);
    assert_eq!(tracker.records()[0].track_id, track_id);
    assert_eq!(tracker.records()[0].hits, 2);
}

#[test]
fn tracker_scene_cut_reset_gives_new_identity() {
    let mut tracker = KalmanTracker::with_config(KalmanTrackerConfig::default());
    let first = (100.0, 100.0, 50.0, 80.0);
    let old_id = update_with_boxes(&mut tracker, &[], &[first], 12345)[0].1;
    tracker.handle_scene_cut(67890);
    let created = update_with_boxes(&mut tracker, &[], &[(500.0, 300.0, 50.0, 80.0)], 67890);
    assert_eq!(created.len(), 1);
    assert_ne!(created[0].1, old_id);
}

#[test]
fn new_tracks_are_confirmed_when_one_hit_suffices() {
    let config = KalmanTrackerConfig { min_hits: 1, ..Default::default() };
    let mut tracker = KalmanTracker::with_config(config);
    let confirmed = update_same_positions(&mut tracker, 2, 12345);
    assert_eq!(confirmed, vec![0, 1]);
    // With the default three hits they are not.
    let mut tracker = KalmanTracker::new();
    assert!(update_same_positions(&mut tracker, 2, 12345).is_empty());
}
