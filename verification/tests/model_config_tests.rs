use std::io::Write;
use vclip_media::model_config::{
    available_from, check_model_size, fastest_found, first_present, resolution_outcome, get_resolved_model, is_model_available, ModelConfig,
    ModelResolutionError, ModelSearchPaths, ModelVariant, MIN_MODEL_FILE_SIZE,
};
use vclip_media::model_paths::{YUNET_MODEL_PATHS_2022, YUNET_MODEL_PATHS_2023};
use vclip_media::yunet::{find_model_path, is_yunet_available};

#[test]
fn test_variant_from_str() {
    assert_eq!(
        ModelVariant::from_str("int8bq"),
        Some(ModelVariant::Int8BlockQuantized)
    );
    assert_eq!(ModelVariant::from_str("fp32"), Some(ModelVariant::Fp32));
    assert_eq!(ModelVariant::from_str("invalid"), None);
}

#[test]
fn test_variant_display() {
    let v = ModelVariant::Int8BlockQuantized;
    let s = v.display_text();
    assert!(s.contains("INT8-BQ"));
    assert!(s.contains("6ms"));
}

#[test]
fn test_speed_ordering() {
    let variants = ModelVariant::ALL_BY_SPEED;
    for i in 1..variants.len() {
        assert!(
            variants[i - 1].expected_ms_per_frame() <= variants[i].expected_ms_per_frame(),
            "Variants should be ordered by speed"
        );
    }
}

#[test]
fn model_config_test_default_config() {
    let config = ModelConfig::default();
    assert!(config.preferred_variant.is_none());
    assert!(!config.search_paths.directories.is_empty());
}

#[test]
fn test_model_paths() {
    // Just verify the paths are defined
    assert!(!YUNET_MODEL_PATHS_2023.is_empty());
    assert!(!YUNET_MODEL_PATHS_2022.is_empty());
}

#[test]
fn variant_names_accept_aliases_in_any_case() {
    assert_eq!(ModelVariant::from_str("INT8BQ"), Some(ModelVariant::Int8BlockQuantized));
    assert_eq!(ModelVariant::from_str("Int8-BQ"), Some(ModelVariant::Int8BlockQuantized));
    assert_eq!(ModelVariant::from_str("INT8"), Some(ModelVariant::Int8));
    assert_eq!(ModelVariant::from_str("Legacy"), Some(ModelVariant::Legacy2022));
    assert_eq!(ModelVariant::from_str("2022"), Some(ModelVariant::Legacy2022));
    assert_eq!(ModelVariant::from_str(""), None);
}

#[test]
fn variant_characteristics() {
    assert_eq!(ModelVariant::Int8BlockQuantized.expected_ms_per_frame(), 6);
    assert_eq!(ModelVariant::Int8.expected_ms_per_frame(), 8);
    assert_eq!(ModelVariant::Fp32.expected_ms_per_frame(), 25);
    assert_eq!(ModelVariant::Legacy2022.expected_ms_per_frame(), 30);
    assert_eq!(ModelVariant::Int8.display_name(), "2023mar INT8");
    assert_eq!(
        ModelVariant::Int8BlockQuantized.filename_pattern(),
        "face_detection_yunet_2023mar_int8bq.onnx"
    );
    assert_eq!(ModelVariant::Legacy2022.filename_pattern(), "face_detection_yunet_2022mar.onnx");
    assert_eq!(
        ModelVariant::Int8BlockQuantized.display_text(),
        "2023mar INT8-BQ (~6ms, 0.885 AP)"
    );
}

#[test]
fn error_messages() {
    let e = ModelResolutionError::VariantNotFound(ModelVariant::Fp32);
    assert_eq!(
        e.message(),
        "YuNet model variant 2023mar FP32 not found. Download from: https://github.com/opencv/opencv_zoo/tree/main/models/face_detection_yunet"
    );
    let e = ModelResolutionError::FileTooSmall { path: "/m/a.onnx".to_string(), size: 10, min_size: 50000 };
    assert_eq!(
        e.message(),
        "YuNet model at /m/a.onnx appears corrupted (10 bytes, expected >= 50000 bytes)"
    );
    let e = ModelResolutionError::IoError("/m/a.onnx".to_string(), "denied".to_string());
    assert_eq!(e.message(), "Failed to read YuNet model at /m/a.onnx: denied");
    assert!(ModelResolutionError::NoModelsFound.message().starts_with("No YuNet models found."));
}

#[test]
fn size_check_outcomes() {
    match check_model_size("/m/x.onnx", Err("boom".to_string()), 100) {
        Err(ModelResolutionError::IoError(p, m)) => {
            assert_eq!(p, "/m/x.onnx");
            assert_eq!(m, "boom");
        }
        other => panic!("unexpected {:?}", other),
    }
    match check_model_size("/m/x.onnx", Ok(99), 100) {
        Err(ModelResolutionError::FileTooSmall { path, size, min_size }) => {
            assert_eq!(path, "/m/x.onnx");
            assert_eq!(size, 99);
            assert_eq!(min_size, 100);
        }
        other => panic!("unexpected {:?}", other),
    }
    assert!(check_model_size("/m/x.onnx", Ok(100), 100).is_ok());
}

#[test]
fn first_present_finds_first_flag() {
    assert_eq!(first_present(&vec![false, true, true]), Some(1));
    assert_eq!(first_present(&vec![false, false]), None);
    assert_eq!(first_present(&vec![]), None);
}

fn write_model(dir: &tempfile::TempDir, name: &str, len: usize) {
    let (prefix, suffix) = name.split_at(name.len() - 5);
    let mut f = tempfile::Builder::new()
        .prefix(prefix)
        .suffix(suffix)
        .rand_bytes(0)
        .tempfile_in(dir.path())
        .unwrap();
    f.as_file_mut().write_all(&vec![7u8; len]).unwrap();
    f.keep().unwrap();
}

fn config_for(dir: &tempfile::TempDir, preferred: Option<ModelVariant>) -> ModelConfig {
    ModelConfig {
        preferred_variant: preferred,
        search_paths: ModelSearchPaths { directories: vec![dir.path().to_string_lossy().to_string()] },
        min_file_size: MIN_MODEL_FILE_SIZE,
    }
}

#[test]
fn resolve_reports_missing_models() {
    let dir = tempfile::TempDir::new().unwrap();
    assert!(matches!(config_for(&dir, None).resolve(), Err(ModelResolutionError::NoModelsFound)));
    assert!(matches!(
        config_for(&dir, Some(ModelVariant::Fp32)).resolve(),
        Err(ModelResolutionError::VariantNotFound(ModelVariant::Fp32))
    ));
    let empty = ModelConfig {
        preferred_variant: None,
        search_paths: ModelSearchPaths { directories: vec![] },
        min_file_size: 1,
    };
    assert!(matches!(empty.resolve(), Err(ModelResolutionError::NoModelsFound)));
    let empty_requested = ModelConfig {
        preferred_variant: Some(ModelVariant::Int8),
        search_paths: ModelSearchPaths { directories: vec![] },
        min_file_size: 1,
    };
    assert!(matches!(empty_requested.resolve(), Err(ModelResolutionError::VariantNotFound(ModelVariant::Int8))));
}

#[test]
fn resolve_prefers_fastest_present_variant() {
    let dir = tempfile::TempDir::new().unwrap();
    write_model(&dir, "face_detection_yunet_2023mar.onnx", 60_000);
    write_model(&dir, "face_detection_yunet_2023mar_int8.onnx", 60_000);
    let base = dir.path().to_string_lossy().to_string();
    let (v, p) = config_for(&dir, None).resolve().unwrap();
    assert_eq!(v, ModelVariant::Int8);
    assert_eq!(p, format!("{}/face_detection_yunet_2023mar_int8.onnx", base));
    let listed = config_for(&dir, None).search_paths.list_available();
    assert_eq!(listed.len(), 2);
    assert_eq!(listed[0].0, ModelVariant::Int8);
    assert_eq!(listed[1].0, ModelVariant::Fp32);
    let (v, _) = config_for(&dir, Some(ModelVariant::Fp32)).resolve().unwrap();
    assert_eq!(v, ModelVariant::Fp32);
    assert_eq!(
        config_for(&dir, None).search_paths.find_variant(ModelVariant::Fp32),
        Some(format!("{}/face_detection_yunet_2023mar.onnx", base))
    );
    assert_eq!(config_for(&dir, None).search_paths.find_variant(ModelVariant::Legacy2022), None);
}

#[test]
fn resolve_rejects_truncated_model() {
    let dir = tempfile::TempDir::new().unwrap();
    write_model(&dir, "face_detection_yunet_2023mar_int8bq.onnx", 10);
    match config_for(&dir, None).resolve() {
        Err(ModelResolutionError::FileTooSmall { size, min_size, .. }) => {
            assert_eq!(size, 10);
            assert_eq!(min_size, MIN_MODEL_FILE_SIZE);
        }
        other => panic!("unexpected {:?}", other),
    }
}

#[test]
fn with_variant_keeps_default_search() {
    let c = ModelConfig::with_variant(ModelVariant::Int8);
    assert_eq!(c.preferred_variant, Some(ModelVariant::Int8));
    assert_eq!(c.search_paths.directories.len(), 5);
    assert_eq!(c.min_file_size, 50_000);
    let d = ModelSearchPaths::default();
    assert_eq!(d.directories[0], "/app/backend/models/face_detection/yunet");
    assert_eq!(d.directories[4], "/usr/share/opencv/models");
    assert_eq!(
        d.candidate_paths(ModelVariant::Int8BlockQuantized)[2],
        "/app/models/face_detection_yunet_2023mar_int8bq.onnx"
    );
}

#[test]
fn env_setting_selects_variant() {
    assert_eq!(ModelConfig::from_env_value(Some("FP32")).preferred_variant, Some(ModelVariant::Fp32));
    assert_eq!(ModelConfig::from_env_value(Some("bogus")).preferred_variant, None);
    assert_eq!(ModelConfig::from_env_value(None).preferred_variant, None);
}

#[test]
fn availability_agrees_with_resolution() {
    let resolved = get_resolved_model(Some("int8bq"));
    assert_eq!(is_model_available(Some("int8bq")), resolved.is_ok());
    assert_eq!(is_yunet_available(Some("int8bq")), resolved.is_ok());
    assert_eq!(find_model_path(Some("int8bq")), resolved.ok().map(|(_, p)| p));
}

#[test]
fn fastest_and_available_from_search_results() {
    let found = vec![None, Some("/b/int8.onnx".to_string()), None, Some("/d/2022.onnx".to_string())];
    assert_eq!(fastest_found(&found), Some((ModelVariant::Int8, "/b/int8.onnx".to_string())));
    assert_eq!(
        available_from(&found),
        vec![
            (ModelVariant::Int8, "/b/int8.onnx".to_string()),
            (ModelVariant::Legacy2022, "/d/2022.onnx".to_string()),
        ]
    );
    let none: Vec<Option<String>> = vec![None, None, None, None];
    assert_eq!(fastest_found(&none), None);
    assert!(available_from(&none).is_empty());
}

#[test]
fn resolution_outcomes() {
    let ok = resolution_outcome(None, Some((ModelVariant::Int8, "/m/a.onnx".to_string(), Ok(()))));
    assert_eq!(ok.unwrap(), (ModelVariant::Int8, "/m/a.onnx".to_string()));
    let small = resolution_outcome(
        Some(ModelVariant::Int8),
        Some((
            ModelVariant::Int8,
            "/m/a.onnx".to_string(),
            Err(ModelResolutionError::FileTooSmall { path: "/m/a.onnx".to_string(), size: 3, min_size: 9 }),
        )),
    );
    assert!(matches!(small, Err(ModelResolutionError::FileTooSmall { size: 3, min_size: 9, .. })));
    assert!(matches!(
        resolution_outcome(Some(ModelVariant::Fp32), None),
        Err(ModelResolutionError::VariantNotFound(ModelVariant::Fp32))
    ));
    assert!(matches!(resolution_outcome(None, None), Err(ModelResolutionError::NoModelsFound)));
}
