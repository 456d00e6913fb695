//! Well-known locations of the model files used by the face analysis
//! stages, and the first-present search over them.

use vstd::prelude::*;
use crate::disk::path_exists;
use crate::model_config::{candidate_path, default_directory_texts, first_present, ModelVariant};

verus! {

/// LBF facemark model locations in priority order.
pub const LBF_MODEL_PATHS: [&'static str; 5] = [
    "/app/backend/models/face_detection/lbfmodel.yaml",
    "/app/models/face_detection/lbfmodel.yaml",
    "/app/models/lbfmodel.yaml",
    "./backend/models/face_detection/lbfmodel.yaml",
    "/usr/share/opencv/testdata/cv/face/lbfmodel.yaml",
];

/// Face mesh model locations in priority order.
pub const FACE_MESH_MODEL_PATHS: [&'static str; 3] = [
    "./backend/models/face_mesh/face_landmark_with_attention.onnx",
    "/app/backend/models/face_mesh/face_landmark_with_attention.onnx",
    "/app/models/face_mesh/face_landmark_with_attention.onnx",
];

/// Locations of the 2023 INT8-BQ YuNet model in the default search
/// directories.
pub const YUNET_MODEL_PATHS_2023: [&'static str; 5] = [
    "/app/backend/models/face_detection/yunet/face_detection_yunet_2023mar_int8bq.onnx",
    "/app/models/face_detection/yunet/face_detection_yunet_2023mar_int8bq.onnx",
    "/app/models/face_detection_yunet_2023mar_int8bq.onnx",
    "./backend/models/face_detection/yunet/face_detection_yunet_2023mar_int8bq.onnx",
    "/usr/share/opencv/models/face_detection_yunet_2023mar_int8bq.onnx",
];

/// Locations of the 2022 YuNet model in the default search directories.
pub const YUNET_MODEL_PATHS_2022: [&'static str; 5] = [
    "/app/backend/models/face_detection/yunet/face_detection_yunet_2022mar.onnx",
    "/app/models/face_detection/yunet/face_detection_yunet_2022mar.onnx",
    "/app/models/face_detection_yunet_2022mar.onnx",
    "./backend/models/face_detection/yunet/face_detection_yunet_2022mar.onnx",
    "/usr/share/opencv/models/face_detection_yunet_2022mar.onnx",
];

/// The first of `candidates` that exists on disk. Which ones exist depends
/// on the disk; a returned path is always one of the candidates, and the
/// choice among them is [`first_present`] over what was found.
pub fn first_existing<const N: usize>(candidates: &[&'static str; N]) -> (r: Option<&'static str>)
    ensures
        r matches Some(p) ==> exists|i: int| 0 <= i < N && p@ == (#[trigger] candidates@[i])@,
        N == 0 ==> r is None,
{
    let mut present: Vec<bool> = Vec::new();
    let mut i: usize = 0;
    while i < N
        invariant
            i <= N,
            present@.len() == i,
        decreases N - i,
    {
        present.push(path_exists(candidates[i]));
        i = i + 1;
    }
    match first_present(&present) {
        Some(k) => {
            let p = candidates[k];
            assert(p@ == candidates@[k as int]@);
            Some(p)
        },
        None => None,
    }
}

/// The first LBF model file that exists.
pub fn find_lbf_model_path() -> (r: Option<&'static str>)
    ensures
        r matches Some(p) ==> exists|i: int| 0 <= i < 5 && p@ == (#[trigger] LBF_MODEL_PATHS@[i])@,
{
    first_existing(&LBF_MODEL_PATHS)
}

/// Whether LBF landmark detection is usable. The facemark module is not part
/// of the build, so this is false whether or not the model file is present.
pub fn is_lbf_available() -> (r: bool)
    ensures
        !r,
{
    let _found = find_lbf_model_path();
    false
}

/// The first face mesh model file that exists.
pub fn find_default_model_path() -> (r: Option<&'static str>)
    ensures
        r matches Some(p) ==> exists|i: int| 0 <= i < 3 && p@ == (#[trigger] FACE_MESH_MODEL_PATHS@[i])@,
{
    first_existing(&FACE_MESH_MODEL_PATHS)
}

/// The YuNet path lists are the paths of the 2023 INT8-BQ and 2022 model
/// files in the default search directories, in the same order.
pub proof fn yunet_model_paths_follow_search_directories()
    ensures
        forall|i: int| 0 <= i < 5 ==> (#[trigger] YUNET_MODEL_PATHS_2023@[i])@
            == candidate_path(default_directory_texts()[i], ModelVariant::Int8BlockQuantized),
        forall|i: int| 0 <= i < 5 ==> (#[trigger] YUNET_MODEL_PATHS_2022@[i])@
            == candidate_path(default_directory_texts()[i], ModelVariant::Legacy2022),
{
    reveal_strlit("/app/backend/models/face_detection/yunet");
    reveal_strlit("/app/models/face_detection/yunet");
    reveal_strlit("/app/models");
    reveal_strlit("./backend/models/face_detection/yunet");
    reveal_strlit("/usr/share/opencv/models");
    reveal_strlit("face_detection_yunet_2023mar_int8bq.onnx");
    reveal_strlit("face_detection_yunet_2022mar.onnx");
    reveal_strlit("/app/backend/models/face_detection/yunet/face_detection_yunet_2023mar_int8bq.onnx");
    reveal_strlit("/app/models/face_detection/yunet/face_detection_yunet_2023mar_int8bq.onnx");
    reveal_strlit("/app/models/face_detection_yunet_2023mar_int8bq.onnx");
    reveal_strlit("./backend/models/face_detection/yunet/face_detection_yunet_2023mar_int8bq.onnx");
    reveal_strlit("/usr/share/opencv/models/face_detection_yunet_2023mar_int8bq.onnx");
    reveal_strlit("/app/backend/models/face_detection/yunet/face_detection_yunet_2022mar.onnx");
    reveal_strlit("/app/models/face_detection/yunet/face_detection_yunet_2022mar.onnx");
    reveal_strlit("/app/models/face_detection_yunet_2022mar.onnx");
    reveal_strlit("./backend/models/face_detection/yunet/face_detection_yunet_2022mar.onnx");
    reveal_strlit("/usr/share/opencv/models/face_detection_yunet_2022mar.onnx");
    assert forall|i: int| 0 <= i < 5 implies (#[trigger] YUNET_MODEL_PATHS_2023@[i])@
        == candidate_path(default_directory_texts()[i], ModelVariant::Int8BlockQuantized) by {
        assert(YUNET_MODEL_PATHS_2023@[i]@ =~= candidate_path(default_directory_texts()[i], ModelVariant::Int8BlockQuantized));
    }
    assert forall|i: int| 0 <= i < 5 implies (#[trigger] YUNET_MODEL_PATHS_2022@[i])@
        == candidate_path(default_directory_texts()[i], ModelVariant::Legacy2022) by {
        assert(YUNET_MODEL_PATHS_2022@[i]@ =~= candidate_path(default_directory_texts()[i], ModelVariant::Legacy2022));
    }
}

} // verus!
