use vclip_media::face_landmarks::{
    FaceLandmarkDetector, INNER_LIP_LOWER, INNER_LIP_UPPER, OUTER_LIP_LOWER, OUTER_LIP_UPPER,
};
use vclip_media::model_paths::{find_lbf_model_path, is_lbf_available, LBF_MODEL_PATHS};

#[test]
fn test_landmark_indices() {
    // Verify lip indices are valid for 68-point model
    assert!(OUTER_LIP_UPPER.iter().all(|&i| i < 68));
    assert!(OUTER_LIP_LOWER.iter().all(|&i| i < 68));
    assert!(INNER_LIP_UPPER.iter().all(|&i| i < 68));
    assert!(INNER_LIP_LOWER.iter().all(|&i| i < 68));
}

#[test]
fn test_detector_returns_none() {
    // Detector should return None when face contrib not available
    let detector = FaceLandmarkDetector::new();
    assert!(detector.unwrap().is_none());
}

#[test]
fn lbf_is_never_available_in_this_build() {
    assert!(!is_lbf_available());
    if let Some(p) = find_lbf_model_path() {
        assert!(LBF_MODEL_PATHS.contains(&p));
    }
}
