//! Verified core of the vclip media pipeline: crop geometry, FFmpeg filter
//! construction, model discovery, temporal decimation, scene-cut debouncing,
//! face-track bookkeeping and assignment, face-timeline queries, engine
//! configuration and the IPv6 source-address pool.

pub mod text;
pub mod float_bits;
pub mod output_format;
mod disk;
pub mod model_config;
pub mod encoding;
pub mod stacking;
pub mod temporal;
pub mod ipv6_rotation;
pub mod models;
pub mod error;
pub mod model_paths;
pub mod face_landmarks;
pub mod layout;
pub mod render_commands;
pub mod scene_hash;
pub mod scene_cut;
pub mod engine_config;
pub mod kalman_tracker;
pub mod face_timeline;
pub mod yunet;
pub mod pipeline_plan;
pub mod segments;
pub mod engine_step;
