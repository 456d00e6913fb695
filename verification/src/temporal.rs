//! Temporal decimation of face detection: full inference on keyframes (every
//! N frames, on a time interval, or on triggers such as scene cuts, lost
//! tracks and low tracker confidence) and tracker prediction on the frames
//! in between.
//!
//! Thresholds that are real numbers (`scene_cut_threshold`, `min_confidence`,
//! `drift_threshold`) and the tracker confidence are carried as the bit
//! patterns of their `f64` values and compared in the order of the values
//! (see [`crate::float_bits`]).

use vstd::prelude::*;
use crate::float_bits::{f64_lt, f64_bits_less};

verus! {

/// Bit pattern of `0.3_f64`.
pub const F64_0_3_BITS: u64 = 0x3fd3333333333333;
/// Bit pattern of `0.4_f64`.
pub const F64_0_4_BITS: u64 = 0x3fd999999999999a;
/// Bit pattern of `0.15_f64`.
pub const F64_0_15_BITS: u64 = 0x3fc3333333333333;
/// Bit pattern of `0.5_f64`.
pub const F64_0_5_BITS: u64 = 0x3fe0000000000000;

/// Configuration for temporal decimation.
#[derive(Debug, Clone, Copy, PartialEq, Eq, Structural)]
pub struct TemporalConfig {
    /// Run full detection every N frames.
    pub detect_every_n: u32,
    /// Time-based detection interval in milliseconds (checked before the
    /// frame-based keyframe rule when set).
    pub detect_interval_ms: Option<u64>,
    /// Bit pattern of the scene-cut threshold (an `f64` in 0.0..=1.0).
    pub scene_cut_threshold_bits: u64,
    /// Bit pattern of the minimum tracker confidence (an `f64`).
    pub min_confidence_bits: u64,
    /// Bit pattern of the position drift threshold (an `f64` fraction of the
    /// frame width).
    pub drift_threshold_bits: u64,
    /// Maximum frames without detection before a track is considered lost.
    pub max_gap_frames: u32,
    /// Minimum frames between forced re-detections.
    pub min_detection_interval: u32,
}

impl Default for TemporalConfig {
    fn default() -> (r: Self)
        ensures
            r.detect_every_n == 5,
            r.detect_interval_ms is None,
            r.scene_cut_threshold_bits == F64_0_3_BITS,
            r.min_confidence_bits == F64_0_4_BITS,
            r.drift_threshold_bits == F64_0_15_BITS,
            r.max_gap_frames == 30,
            r.min_detection_interval == 2,
    {
        TemporalConfig {
            detect_every_n: 5,
            detect_interval_ms: None,
            scene_cut_threshold_bits: F64_0_3_BITS,
            min_confidence_bits: F64_0_4_BITS,
            drift_threshold_bits: F64_0_15_BITS,
            max_gap_frames: 30,
            min_detection_interval: 2,
        }
    }
}

impl TemporalConfig {
    /// Real-time preset: detection every 10 frames, confidence floor 0.5,
    /// up to 50 gap frames.
    pub fn fast() -> (r: Self)
        ensures
            r == (TemporalConfig { detect_every_n: 10, min_confidence_bits: F64_0_5_BITS, max_gap_frames: 50, ..TemporalConfig::spec_default() }),
    {
        let d = Self::default();
        TemporalConfig { detect_every_n: 10, min_confidence_bits: F64_0_5_BITS, max_gap_frames: 50, ..d }
    }

    /// Offline preset: detection every 3 frames, confidence floor 0.3, up
    /// to 15 gap frames.
    pub fn quality() -> (r: Self)
        ensures
            r == (TemporalConfig { detect_every_n: 3, min_confidence_bits: F64_0_3_BITS, max_gap_frames: 15, ..TemporalConfig::spec_default() }),
    {
        let d = Self::default();
        TemporalConfig { detect_every_n: 3, min_confidence_bits: F64_0_3_BITS, max_gap_frames: 15, ..d }
    }

    /// Default configuration with time-based detection every `interval_ms`.
    pub fn with_interval(interval_ms: u64) -> (r: Self)
        ensures
            r == (TemporalConfig { detect_interval_ms: Some(interval_ms), ..TemporalConfig::spec_default() }),
    {
        let d = Self::default();
        TemporalConfig { detect_interval_ms: Some(interval_ms), ..d }
    }

    /// The default configuration as a value.
    pub open spec fn spec_default() -> TemporalConfig {
        TemporalConfig {
            detect_every_n: 5,
            detect_interval_ms: None,
            scene_cut_threshold_bits: F64_0_3_BITS,
            min_confidence_bits: F64_0_4_BITS,
            drift_threshold_bits: F64_0_15_BITS,
            max_gap_frames: 30,
            min_detection_interval: 2,
        }
    }
}

/// Reason for running a detection.
#[derive(Debug, Clone, Copy, PartialEq, Eq, Structural)]
pub enum DetectionTrigger {
    /// Regular keyframe interval reached.
    Keyframe,
    /// Scene cut detected.
    SceneCut,
    /// Tracker confidence too low.
    LowConfidence,
    /// Position drifted too far.
    PositionDrift,
    /// All tracks lost.
    NoTracks,
    /// First frame of the sequence.
    FirstFrame,
    /// Time interval reached.
    TimeInterval,
    /// Track ID swap risk detected.
    SwapRisk,
}

impl DetectionTrigger {
    pub open spec fn label_text(self) -> Seq<char> {
        match self {
            DetectionTrigger::Keyframe => "keyframe"@,
            DetectionTrigger::SceneCut => "scene_cut"@,
            DetectionTrigger::LowConfidence => "low_confidence"@,
            DetectionTrigger::PositionDrift => "position_drift"@,
            DetectionTrigger::NoTracks => "no_tracks"@,
            DetectionTrigger::FirstFrame => "first_frame"@,
            DetectionTrigger::TimeInterval => "time_interval"@,
            DetectionTrigger::SwapRisk => "swap_risk"@,
        }
    }

    /// Snake-case name used in logs.
    pub fn label(&self) -> (r: &'static str)
        ensures
            r@ == self.label_text(),
    {
        match self {
            DetectionTrigger::Keyframe => "keyframe",
            DetectionTrigger::SceneCut => "scene_cut",
            DetectionTrigger::LowConfidence => "low_confidence",
            DetectionTrigger::PositionDrift => "position_drift",
            DetectionTrigger::NoTracks => "no_tracks",
            DetectionTrigger::FirstFrame => "first_frame",
            DetectionTrigger::TimeInterval => "time_interval",
            DetectionTrigger::SwapRisk => "swap_risk",
        }
    }
}

/// Counters of decimation decisions.
#[derive(Debug, Clone, Copy, PartialEq, Eq, Structural)]
pub struct DecimatorStats {
    /// Detections on the keyframe interval (frame- or time-based), and
    /// forced keyframes after a track-swap risk.
    pub keyframe_count: u64,
    /// Frames served by tracker prediction.
    pub gap_frame_count: u64,
    /// Detections forced by a scene cut.
    pub scene_cut_count: u64,
    /// Detections forced by low tracker confidence.
    pub low_confidence_count: u64,
    /// Detections forced by having no active tracks.
    pub no_track_count: u64,
}

impl DecimatorStats {
    /// All counters at zero.
    pub fn zero() -> (r: Self)
        ensures
            r.total() == 0,
            r == DecimatorStats::spec_zero(),
    {
        DecimatorStats { keyframe_count: 0, gap_frame_count: 0, scene_cut_count: 0, low_confidence_count: 0, no_track_count: 0 }
    }

    pub open spec fn spec_zero() -> DecimatorStats {
        DecimatorStats { keyframe_count: 0, gap_frame_count: 0, scene_cut_count: 0, low_confidence_count: 0, no_track_count: 0 }
    }

    /// Number of decisions the counters account for.
    pub open spec fn total(self) -> int {
        self.keyframe_count + self.gap_frame_count + self.scene_cut_count + self.low_confidence_count
            + self.no_track_count
    }
}

impl Default for DecimatorStats {
    fn default() -> (r: Self)
        ensures
            r == DecimatorStats::spec_zero(),
    {
        DecimatorStats::zero()
    }
}

/// Keyframe/gap decision state.
pub struct TemporalDecimator {
    config: TemporalConfig,
    frame_count: u64,
    last_detection_frame: u64,
    last_detection_time_ms: u64,
    current_scene_hash: u64,
    scene_cut_pending: bool,
    swap_risk_pending: bool,
    stats: DecimatorStats,
}

/// `a - b`, or zero when `b > a`.
pub open spec fn sat_sub(a: int, b: int) -> int {
    if a >= b { a - b } else { 0 }
}

impl TemporalDecimator {
    pub closed spec fn spec_config(&self) -> TemporalConfig { self.config }
    pub closed spec fn spec_frame_count(&self) -> u64 { self.frame_count }
    pub closed spec fn spec_last_detection_frame(&self) -> u64 { self.last_detection_frame }
    pub closed spec fn spec_last_detection_time_ms(&self) -> u64 { self.last_detection_time_ms }
    pub closed spec fn spec_scene_hash(&self) -> u64 { self.current_scene_hash }
    pub closed spec fn spec_scene_cut_pending(&self) -> bool { self.scene_cut_pending }
    pub closed spec fn spec_swap_risk_pending(&self) -> bool { self.swap_risk_pending }
    pub closed spec fn spec_stats(&self) -> DecimatorStats { self.stats }

    /// Every frame after the first is accounted for exactly once in the
    /// statistics (the first frame's detection is counted in none of them),
    /// and the last detection frame never lies ahead of the frame count.
    pub open spec fn wf(&self) -> bool {
        &&& self.spec_stats().total() == sat_sub(self.spec_frame_count() as int, 1)
        &&& self.spec_last_detection_frame() <= self.spec_frame_count()
    }

    /// The decision for the next frame, given the tracker confidence (bit
    /// pattern of an `f64`), the number of active tracks and the frame
    /// timestamp. Frames since the last detection count the new frame.
    pub open spec fn next_trigger(&self, tracker_confidence_bits: u64, active_track_count: usize, timestamp_ms: u64) -> Option<DetectionTrigger> {
        let f = self.spec_frame_count() as int;
        let since = sat_sub(f + 1, self.spec_last_detection_frame() as int);
        let cfg = self.spec_config();
        if f == 0 {
            Some(DetectionTrigger::FirstFrame)
        } else if self.spec_scene_cut_pending() {
            Some(DetectionTrigger::SceneCut)
        } else if self.spec_swap_risk_pending() {
            Some(DetectionTrigger::SwapRisk)
        } else if active_track_count == 0 && since >= cfg.min_detection_interval {
            Some(DetectionTrigger::NoTracks)
        } else if f64_lt(tracker_confidence_bits, cfg.min_confidence_bits) && since >= cfg.min_detection_interval {
            Some(DetectionTrigger::LowConfidence)
        } else if cfg.detect_interval_ms matches Some(i) && sat_sub(timestamp_ms as int, self.spec_last_detection_time_ms() as int) >= i {
            Some(DetectionTrigger::TimeInterval)
        } else if since >= cfg.detect_every_n {
            Some(DetectionTrigger::Keyframe)
        } else {
            None
        }
    }

    /// Statistics after a decision.
    pub open spec fn stats_after(s: DecimatorStats, t: Option<DetectionTrigger>) -> DecimatorStats {
        match t {
            None => DecimatorStats { gap_frame_count: (s.gap_frame_count + 1) as u64, ..s },
            Some(DetectionTrigger::SceneCut) => DecimatorStats { scene_cut_count: (s.scene_cut_count + 1) as u64, ..s },
            Some(DetectionTrigger::NoTracks) => DecimatorStats { no_track_count: (s.no_track_count + 1) as u64, ..s },
            Some(DetectionTrigger::LowConfidence) => DecimatorStats { low_confidence_count: (s.low_confidence_count + 1) as u64, ..s },
            Some(DetectionTrigger::TimeInterval) => DecimatorStats { keyframe_count: (s.keyframe_count + 1) as u64, ..s },
            Some(DetectionTrigger::Keyframe) => DecimatorStats { keyframe_count: (s.keyframe_count + 1) as u64, ..s },
            Some(DetectionTrigger::SwapRisk) => DecimatorStats { keyframe_count: (s.keyframe_count + 1) as u64, ..s },
            Some(_) => s,
        }
    }

    /// A fresh decimator.
    pub fn new(config: TemporalConfig) -> (r: Self)
        ensures
            r.wf(),
            r.spec_config() == config,
            r.spec_frame_count() == 0,
            r.spec_last_detection_frame() == 0,
            r.spec_last_detection_time_ms() == 0,
            r.spec_scene_hash() == 0,
            !r.spec_scene_cut_pending(),
            !r.spec_swap_risk_pending(),
            r.spec_stats() == DecimatorStats::spec_zero(),
    {
        TemporalDecimator {
            config,
            frame_count: 0,
            last_detection_frame: 0,
            last_detection_time_ms: 0,
            current_scene_hash: 0,
            scene_cut_pending: false,
            swap_risk_pending: false,
            stats: DecimatorStats::zero(),
        }
    }

    /// A fresh decimator with the default configuration.
    pub fn with_defaults() -> (r: Self)
        ensures
            r.wf(),
            r.spec_config() == TemporalConfig::spec_default(),
            r.spec_frame_count() == 0,
            r.spec_last_detection_frame() == 0,
            r.spec_last_detection_time_ms() == 0,
            r.spec_stats() == DecimatorStats::spec_zero(),
            !r.spec_scene_cut_pending(),
            !r.spec_swap_risk_pending(),
            r.spec_scene_hash() == 0,
    {
        Self::new(TemporalConfig::default())
    }

    /// Decides whether the current frame runs a full detection, and why.
    /// `tracker_confidence_bits` is the bit pattern of the minimum
    /// confidence across active tracks (an `f64` in 0.0..=1.0). Returns
    /// `None` for a gap frame.
    pub fn should_detect(&mut self, tracker_confidence_bits: u64, active_track_count: usize, timestamp_ms: u64) -> (r: Option<DetectionTrigger>)
        requires
            old(self).wf(),
            old(self).spec_frame_count() < u64::MAX,
        ensures
            final(self).wf(),
            r == old(self).next_trigger(tracker_confidence_bits, active_track_count, timestamp_ms),
            final(self).spec_frame_count() == old(self).spec_frame_count() + 1,
            final(self).spec_config() == old(self).spec_config(),
            final(self).spec_scene_hash() == old(self).spec_scene_hash(),
            final(self).spec_stats() == Self::stats_after(old(self).spec_stats(), if old(self).spec_frame_count() == 0 { Some(DetectionTrigger::FirstFrame) } else { r }),
            r is Some ==> final(self).spec_last_detection_frame() == final(self).spec_frame_count()
                && final(self).spec_last_detection_time_ms() == timestamp_ms,
            r is None ==> final(self).spec_last_detection_frame() == old(self).spec_last_detection_frame()
                && final(self).spec_last_detection_time_ms() == old(self).spec_last_detection_time_ms(),
            r == Some(DetectionTrigger::SceneCut) ==> !final(self).spec_scene_cut_pending(),
            r != Some(DetectionTrigger::SceneCut) ==> final(self).spec_scene_cut_pending() == old(self).spec_scene_cut_pending(),
            // Any detection answers a pending swap risk.
            r is Some ==> !final(self).spec_swap_risk_pending(),
            r is None ==> final(self).spec_swap_risk_pending() == old(self).spec_swap_risk_pending(),
            // The first frame always runs a detection.
            old(self).spec_frame_count() == 0 ==> r == Some(DetectionTrigger::FirstFrame),
            // Re-detections for lost tracks or low confidence wait the
            // minimum interval after the last detection.
            (r == Some(DetectionTrigger::NoTracks) || r == Some(DetectionTrigger::LowConfidence)) ==>
                old(self).spec_frame_count() + 1 - old(self).spec_last_detection_frame()
                    >= old(self).spec_config().min_detection_interval,
            r == Some(DetectionTrigger::NoTracks) ==> active_track_count == 0,
            // A gap frame is never further than `detect_every_n` frames from
            // the last detection.
            r is None ==> final(self).spec_frame_count() - final(self).spec_last_detection_frame()
                < final(self).spec_config().detect_every_n,
    {
        let frame_idx = self.frame_count;
        self.frame_count = self.frame_count + 1;

        if frame_idx == 0 {
            self.record_detection(timestamp_ms);
            return Some(DetectionTrigger::FirstFrame);
        }
        if self.scene_cut_pending {
            self.scene_cut_pending = false;
            self.record_detection(timestamp_ms);
            self.stats.scene_cut_count = self.stats.scene_cut_count + 1;
            return Some(DetectionTrigger::SceneCut);
        }
        if self.swap_risk_pending {
            self.record_detection(timestamp_ms);
            self.stats.keyframe_count = self.stats.keyframe_count + 1;
            return Some(DetectionTrigger::SwapRisk);
        }
        let since = self.frames_since_detection();
        if active_track_count == 0 {
            if since >= self.config.min_detection_interval as u64 {
                self.record_detection(timestamp_ms);
                self.stats.no_track_count = self.stats.no_track_count + 1;
                return Some(DetectionTrigger::NoTracks);
            }
        }
        if f64_bits_less(tracker_confidence_bits, self.config.min_confidence_bits) {
            if since >= self.config.min_detection_interval as u64 {
                self.record_detection(timestamp_ms);
                self.stats.low_confidence_count = self.stats.low_confidence_count + 1;
                return Some(DetectionTrigger::LowConfidence);
            }
        }
        if let Some(interval) = self.config.detect_interval_ms {
            let elapsed_ms = timestamp_ms.saturating_sub(self.last_detection_time_ms);
            if elapsed_ms >= interval {
                self.record_detection(timestamp_ms);
                self.stats.keyframe_count = self.stats.keyframe_count + 1;
                return Some(DetectionTrigger::TimeInterval);
            }
        }
        if since >= self.config.detect_every_n as u64 {
            self.record_detection(timestamp_ms);
            self.stats.keyframe_count = self.stats.keyframe_count + 1;
            return Some(DetectionTrigger::Keyframe);
        }
        self.stats.gap_frame_count = self.stats.gap_frame_count + 1;
        None
    }

    /// The decimator after the scene hash `new_scene_hash` is recorded.
    pub closed spec fn notified(self, new_scene_hash: u64) -> TemporalDecimator {
        TemporalDecimator {
            scene_cut_pending: self.scene_cut_pending
                || (self.current_scene_hash != 0 && self.current_scene_hash != new_scene_hash),
            current_scene_hash: new_scene_hash,
            ..self
        }
    }

    /// Records the hash of the current scene. A change from one non-zero
    /// hash to a different one makes the next frame a scene-cut detection.
    pub fn notify_scene_cut(&mut self, new_scene_hash: u64)
        requires
            old(self).wf(),
        ensures
            *final(self) == old(self).notified(new_scene_hash),
            final(self).wf(),
            final(self).spec_scene_hash() == new_scene_hash,
            final(self).spec_scene_cut_pending() == (old(self).spec_scene_cut_pending()
                || (old(self).spec_scene_hash() != 0 && old(self).spec_scene_hash() != new_scene_hash)),
            final(self).spec_frame_count() == old(self).spec_frame_count(),
            final(self).spec_last_detection_frame() == old(self).spec_last_detection_frame(),
            final(self).spec_last_detection_time_ms() == old(self).spec_last_detection_time_ms(),
            final(self).spec_swap_risk_pending() == old(self).spec_swap_risk_pending(),
            final(self).spec_stats() == old(self).spec_stats(),
            final(self).spec_config() == old(self).spec_config(),
    {
        if self.current_scene_hash != 0 && self.current_scene_hash != new_scene_hash {
            self.scene_cut_pending = true;
        }
        self.current_scene_hash = new_scene_hash;
    }

    /// Notice that tracks overlap and their identities might swap: the next
    /// frame runs a detection (a `SwapRisk` one unless the frame is the
    /// first or a scene cut is pending).
    pub fn notify_swap_risk(&mut self)
        requires
            old(self).wf(),
        ensures
            final(self).wf(),
            final(self).spec_swap_risk_pending(),
            final(self).spec_last_detection_frame() == old(self).spec_last_detection_frame(),
            final(self).spec_frame_count() == old(self).spec_frame_count(),
            final(self).spec_last_detection_time_ms() == old(self).spec_last_detection_time_ms(),
            final(self).spec_scene_hash() == old(self).spec_scene_hash(),
            final(self).spec_scene_cut_pending() == old(self).spec_scene_cut_pending(),
            final(self).spec_stats() == old(self).spec_stats(),
            final(self).spec_config() == old(self).spec_config(),
    {
        self.swap_risk_pending = true;
    }

    /// Current statistics.
    pub fn stats(&self) -> (r: &DecimatorStats)
        ensures
            *r == self.spec_stats(),
    {
        &self.stats
    }

    /// The configuration.
    pub fn config(&self) -> (r: &TemporalConfig)
        ensures
            *r == self.spec_config(),
    {
        &self.config
    }

    /// Frames seen so far.
    pub fn frame_count(&self) -> (r: u64)
        ensures
            r == self.spec_frame_count(),
    {
        self.frame_count
    }

    /// Back to the initial state, keeping the configuration.
    pub fn reset(&mut self)
        ensures
            final(self).wf(),
            final(self).spec_config() == old(self).spec_config(),
            final(self).spec_frame_count() == 0,
            final(self).spec_last_detection_frame() == 0,
            final(self).spec_last_detection_time_ms() == 0,
            final(self).spec_scene_hash() == 0,
            !final(self).spec_scene_cut_pending(),
            !final(self).spec_swap_risk_pending(),
            final(self).spec_stats() == DecimatorStats::spec_zero(),
    {
        self.frame_count = 0;
        self.last_detection_frame = 0;
        self.last_detection_time_ms = 0;
        self.current_scene_hash = 0;
        self.scene_cut_pending = false;
        self.swap_risk_pending = false;
        self.stats = DecimatorStats::zero();
    }

    fn frames_since_detection(&self) -> (r: u64)
        ensures
            r == sat_sub(self.frame_count as int, self.last_detection_frame as int),
    {
        self.frame_count.saturating_sub(self.last_detection_frame)
    }

    fn record_detection(&mut self, timestamp_ms: u64)
        ensures
            final(self).last_detection_frame == old(self).frame_count,
            final(self).last_detection_time_ms == timestamp_ms,
            final(self).frame_count == old(self).frame_count,
            final(self).config == old(self).config,
            final(self).stats == old(self).stats,
            final(self).current_scene_hash == old(self).current_scene_hash,
            final(self).scene_cut_pending == old(self).scene_cut_pending,
            !final(self).swap_risk_pending,
    {
        self.last_detection_frame = self.frame_count;
        self.last_detection_time_ms = timestamp_ms;
        self.swap_risk_pending = false;
    }
}

/// A scene-cut notification with a new hash (after a known one) makes the
/// next frame, unless it is the very first, a scene-cut detection, whatever
/// the tracker reports.
pub proof fn scene_change_forces_detection(
    d: TemporalDecimator,
    notified: TemporalDecimator,
    new_hash: u64,
    tracker_confidence_bits: u64,
    active_track_count: usize,
    timestamp_ms: u64,
)
    requires
        d.wf(),
        d.spec_scene_hash() != 0,
        d.spec_scene_hash() != new_hash,
        d.spec_frame_count() > 0,
        // `notified` is `d` after `notify_scene_cut(new_hash)`.
        notified.spec_scene_cut_pending() == (d.spec_scene_cut_pending()
            || (d.spec_scene_hash() != 0 && d.spec_scene_hash() != new_hash)),
        notified.spec_frame_count() == d.spec_frame_count(),
    ensures
        notified.next_trigger(tracker_confidence_bits, active_track_count, timestamp_ms) == Some(DetectionTrigger::SceneCut),
{
}

/// A track-swap notice makes the next frame run a detection, whatever the
/// tracker reports: a `SwapRisk` one unless it is the first frame or a scene
/// cut is pending.
pub proof fn swap_risk_forces_detection(
    d: TemporalDecimator,
    notified: TemporalDecimator,
    tracker_confidence_bits: u64,
    active_track_count: usize,
    timestamp_ms: u64,
)
    requires
        d.wf(),
        // `notified` is `d` after `notify_swap_risk()`.
        notified.spec_swap_risk_pending(),
        notified.spec_frame_count() == d.spec_frame_count(),
        notified.spec_scene_cut_pending() == d.spec_scene_cut_pending(),
    ensures
        notified.next_trigger(tracker_confidence_bits, active_track_count, timestamp_ms) is Some,
        (d.spec_frame_count() > 0 && !d.spec_scene_cut_pending()) ==>
            notified.next_trigger(tracker_confidence_bits, active_track_count, timestamp_ms) == Some(DetectionTrigger::SwapRisk),
{
}

/// Every decision has its reason, in terms of the decimator's state before
/// the frame and the frame's inputs (frames since the last detection count
/// the new frame): the first frame always detects; a scene cut or a swap
/// risk must be pending; a no-tracks or low-confidence re-detection waits
/// `min_detection_interval` frames after the last detection; a time-based
/// detection needs the interval to have elapsed; a keyframe needs
/// `detect_every_n` frames; and a gap frame is one for which none of these
/// holds.
pub proof fn decisions_have_their_reasons(
    d: TemporalDecimator,
    tracker_confidence_bits: u64,
    active_track_count: usize,
    timestamp_ms: u64,
)
    requires
        d.wf(),
    ensures ({
        let t = d.next_trigger(tracker_confidence_bits, active_track_count, timestamp_ms);
        let f = d.spec_frame_count() as int;
        let since = f + 1 - d.spec_last_detection_frame();
        let cfg = d.spec_config();
        let low = f64_lt(tracker_confidence_bits, cfg.min_confidence_bits);
        let timed = cfg.detect_interval_ms matches Some(i)
            && sat_sub(timestamp_ms as int, d.spec_last_detection_time_ms() as int) >= i;
        &&& (t == Some(DetectionTrigger::FirstFrame) <==> f == 0)
        &&& (t == Some(DetectionTrigger::SceneCut) ==> f > 0 && d.spec_scene_cut_pending())
        &&& (t == Some(DetectionTrigger::SwapRisk) ==> f > 0 && d.spec_swap_risk_pending())
        &&& (t == Some(DetectionTrigger::NoTracks) ==> f > 0 && active_track_count == 0
                && since >= cfg.min_detection_interval)
        &&& (t == Some(DetectionTrigger::LowConfidence) ==> f > 0 && low && since >= cfg.min_detection_interval)
        &&& (t == Some(DetectionTrigger::TimeInterval) ==> f > 0 && timed)
        &&& (t == Some(DetectionTrigger::Keyframe) ==> f > 0 && since >= cfg.detect_every_n)
        &&& t != Some(DetectionTrigger::PositionDrift)
        &&& (t is None <==> (f > 0 && !d.spec_scene_cut_pending() && !d.spec_swap_risk_pending()
                && !(active_track_count == 0 && since >= cfg.min_detection_interval)
                && !(low && since >= cfg.min_detection_interval)
                && !timed
                && since < cfg.detect_every_n))
    }),
{
}

} // verus!
