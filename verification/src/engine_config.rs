//! Configuration of the face inference engine: its mode, inference canvas,
//! and the settings of its temporal decimation, tracking and scene-cut
//! stages, with the presets the pipeline uses.
//!
//! Real-valued settings are carried as the bit patterns of their `f64`
//! values.

use vstd::prelude::*;
use crate::scene_cut::SceneCutConfig;
use crate::temporal::{TemporalConfig, F64_0_3_BITS, F64_0_5_BITS};

verus! {

/// Default inference canvas width.
pub const DEFAULT_INF_WIDTH: u32 = 960;

/// Default inference canvas height.
pub const DEFAULT_INF_HEIGHT: u32 = 540;

/// Inference canvas for common YouTube resolutions: exact 2x or 4x
/// downscales of 1080p, 720p, 4K and 1440p; the default canvas otherwise.
pub open spec fn youtube_inference_size_spec(raw_width: u32, raw_height: u32) -> (u32, u32) {
    if raw_width == 1920 && raw_height == 1080 {
        (960, 540)
    } else if raw_width == 1280 && raw_height == 720 {
        (640, 360)
    } else if raw_width == 3840 && raw_height == 2160 {
        (960, 540)
    } else if raw_width == 2560 && raw_height == 1440 {
        (640, 360)
    } else {
        (DEFAULT_INF_WIDTH, DEFAULT_INF_HEIGHT)
    }
}

/// The inference canvas for a video of the given size (see
/// [`youtube_inference_size_spec`]).
pub fn youtube_inference_size(raw_width: u32, raw_height: u32) -> (r: (u32, u32))
    ensures
        r == youtube_inference_size_spec(raw_width, raw_height),
{
    match (raw_width, raw_height) {
        (1920, 1080) => (960, 540),
        (1280, 720) => (640, 360),
        (3840, 2160) => (960, 540),
        (2560, 1440) => (640, 360),
        _ => (DEFAULT_INF_WIDTH, DEFAULT_INF_HEIGHT),
    }
}

/// Each preset canvas is an exact downscale of its resolution, with the
/// same 16:9 shape and no padding.
pub proof fn youtube_canvases_are_exact_downscales(raw_width: u32, raw_height: u32)
    requires
        (raw_width, raw_height) == (1920u32, 1080u32) || (raw_width, raw_height) == (1280u32, 720u32)
            || (raw_width, raw_height) == (3840u32, 2160u32) || (raw_width, raw_height) == (2560u32, 1440u32),
    ensures
        ({
            let (w, h) = youtube_inference_size_spec(raw_width, raw_height);
            &&& raw_width * h == raw_height * w
            &&& (raw_width % w == 0 && raw_width / w == raw_height / h)
        }),
{
}

/// Bit pattern of `1.0_f64`.
pub const F64_1_0_BITS: u64 = 0x3ff0_0000_0000_0000;
/// Bit pattern of `0.1_f64`.
pub const F64_0_1_BITS: u64 = 0x3fb9_9999_9999_999a;
/// Bit pattern of `0.95_f64`.
pub const F64_0_95_BITS: u64 = 0x3fee_6666_6666_6666;

/// Face engine operation mode.
#[derive(Debug, Clone, Copy, PartialEq, Eq, Structural)]
pub enum EngineMode {
    /// Letterboxed inference with temporal decimation and Kalman tracking.
    Optimized,
    /// The earlier detector with a dynamic input size.
    Legacy,
}

impl Default for EngineMode {
    fn default() -> (r: Self)
        ensures
            r == EngineMode::Optimized,
    {
        EngineMode::Optimized
    }
}

/// Lower-case name of an engine mode.
pub open spec fn engine_mode_name(mode: EngineMode) -> Seq<char> {
    match mode {
        EngineMode::Optimized => "optimized"@,
        EngineMode::Legacy => "legacy"@,
    }
}

impl EngineMode {
    /// Lower-case name of the mode, as written in the timeline.
    pub fn name(&self) -> (r: String)
        ensures
            r@ == engine_mode_name(*self),
    {
        match self {
            EngineMode::Optimized => String::from_str("optimized"),
            EngineMode::Legacy => String::from_str("legacy"),
        }
    }
}

/// Settings of the Kalman face tracker.
#[derive(Debug, Clone, Copy, PartialEq, Eq, Structural)]
pub struct KalmanTrackerConfig {
    /// Frames without a matching detection before a track is deleted.
    pub max_age: u32,
    /// Hits before a track counts as confirmed.
    pub min_hits: u32,
    /// Bit pattern of the IoU threshold for matching detections to tracks.
    pub iou_threshold_bits: u64,
    /// Bit pattern of the process noise scale for position.
    pub process_noise_pos_bits: u64,
    /// Bit pattern of the process noise scale for velocity.
    pub process_noise_vel_bits: u64,
    /// Bit pattern of the measurement noise scale.
    pub measurement_noise_bits: u64,
    /// Bit pattern of the confidence decay per frame without update.
    pub confidence_decay_bits: u64,
}

impl KalmanTrackerConfig {
    /// The default tracker settings as a value.
    pub open spec fn default_spec() -> KalmanTrackerConfig {
        KalmanTrackerConfig {
            max_age: 30,
            min_hits: 3,
            iou_threshold_bits: F64_0_3_BITS,
            process_noise_pos_bits: F64_1_0_BITS,
            process_noise_vel_bits: F64_0_1_BITS,
            measurement_noise_bits: F64_1_0_BITS,
            confidence_decay_bits: F64_0_95_BITS,
        }
    }
}

impl Default for KalmanTrackerConfig {
    /// 30 frames of age, 3 hits to confirm, IoU 0.3, noise 1.0/0.1/1.0,
    /// decay 0.95.
    fn default() -> (r: Self)
        ensures
            r == KalmanTrackerConfig::default_spec(),
    {
        KalmanTrackerConfig {
            max_age: 30,
            min_hits: 3,
            iou_threshold_bits: F64_0_3_BITS,
            process_noise_pos_bits: F64_1_0_BITS,
            process_noise_vel_bits: F64_0_1_BITS,
            measurement_noise_bits: F64_1_0_BITS,
            confidence_decay_bits: F64_0_95_BITS,
        }
    }
}

/// Configuration of the face inference engine.
#[derive(Debug, Clone, Copy, PartialEq, Eq, Structural)]
pub struct FaceEngineConfig {
    /// Engine operation mode.
    pub mode: EngineMode,
    /// Inference canvas width.
    pub inf_width: u32,
    /// Inference canvas height.
    pub inf_height: u32,
    /// Letterbox padding value (0 = black, 128 = gray).
    pub padding_value: u8,
    /// Temporal decimation settings.
    pub temporal: TemporalConfig,
    /// Tracker settings.
    pub tracker: KalmanTrackerConfig,
    /// Scene-cut detection settings.
    pub scene_cut: SceneCutConfig,
    /// Bit pattern of the minimum detection confidence.
    pub confidence_threshold_bits: u64,
    /// Whether detailed metrics are logged.
    pub log_metrics: bool,
}

impl FaceEngineConfig {
    /// The default engine configuration as a value.
    pub open spec fn default_spec() -> FaceEngineConfig {
        FaceEngineConfig {
            mode: EngineMode::Optimized,
            inf_width: DEFAULT_INF_WIDTH,
            inf_height: DEFAULT_INF_HEIGHT,
            padding_value: 0,
            temporal: TemporalConfig::spec_default(),
            tracker: KalmanTrackerConfig::default_spec(),
            scene_cut: SceneCutConfig::default_spec(),
            confidence_threshold_bits: F64_0_3_BITS,
            log_metrics: true,
        }
    }

    /// The default configuration in legacy mode.
    pub fn legacy() -> (r: Self)
        ensures
            r == (FaceEngineConfig { mode: EngineMode::Legacy, ..FaceEngineConfig::default_spec() }),
    {
        let d = Self::default();
        FaceEngineConfig { mode: EngineMode::Legacy, ..d }
    }

    /// The default configuration with the real-time temporal preset (more
    /// gap frames).
    pub fn fast() -> (r: Self)
        ensures
            r == (FaceEngineConfig {
                temporal: TemporalConfig { detect_every_n: 10, min_confidence_bits: F64_0_5_BITS, max_gap_frames: 50, ..TemporalConfig::spec_default() },
                ..FaceEngineConfig::default_spec()
            }),
    {
        let d = Self::default();
        FaceEngineConfig { temporal: TemporalConfig::fast(), ..d }
    }

    /// The default configuration with the offline temporal preset (more
    /// detections).
    pub fn quality() -> (r: Self)
        ensures
            r == (FaceEngineConfig {
                temporal: TemporalConfig { detect_every_n: 3, min_confidence_bits: F64_0_3_BITS, max_gap_frames: 15, ..TemporalConfig::spec_default() },
                ..FaceEngineConfig::default_spec()
            }),
    {
        let d = Self::default();
        FaceEngineConfig { temporal: TemporalConfig::quality(), ..d }
    }

    /// The default configuration with a 960x540 canvas for 16:9 content.
    pub fn youtube() -> (r: Self)
        ensures
            r == (FaceEngineConfig { inf_width: 960, inf_height: 540, ..FaceEngineConfig::default_spec() }),
    {
        let d = Self::default();
        FaceEngineConfig { inf_width: 960, inf_height: 540, ..d }
    }
}

impl Default for FaceEngineConfig {
    /// Optimized mode on a 960x540 black-padded canvas with the default
    /// decimation, tracking and scene-cut settings, confidence 0.3, metrics
    /// logged.
    fn default() -> (r: Self)
        ensures
            r == FaceEngineConfig::default_spec(),
    {
        FaceEngineConfig {
            mode: EngineMode::Optimized,
            inf_width: DEFAULT_INF_WIDTH,
            inf_height: DEFAULT_INF_HEIGHT,
            padding_value: 0,
            temporal: TemporalConfig::default(),
            tracker: KalmanTrackerConfig::default(),
            scene_cut: SceneCutConfig::default(),
            confidence_threshold_bits: F64_0_3_BITS,
            log_metrics: true,
        }
    }
}

} // verus!
