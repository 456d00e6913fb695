//! Debounced scene-cut decisions. The caller computes a colour histogram of
//! each frame and its similarity with the previous frame's histogram (a real
//! number); the detector decides, frame by frame, whether that similarity
//! marks a cut, and counts the cuts.

use vstd::prelude::*;
use crate::float_bits::{f64_bits_less, f64_lt};
use crate::temporal::F64_0_3_BITS;

verus! {

/// Configuration for scene cut detection.
#[derive(Debug, Clone, Copy, PartialEq, Eq, Structural)]
pub struct SceneCutConfig {
    /// Bit pattern of the similarity threshold (an `f64` in 0.0..=1.0);
    /// a similarity below it is a cut.
    pub threshold_bits: u64,
    /// Histogram bins per colour channel.
    pub bins_per_channel: i32,
    /// Frames that must pass after a cut (or the first frame) before the
    /// next cut can be declared.
    pub min_cut_interval: u32,
    /// Downscaling factor of the frame before the histogram is taken.
    pub downsample_factor: u32,
}

impl Default for SceneCutConfig {
    fn default() -> (r: Self)
        ensures
            r == (SceneCutConfig { threshold_bits: F64_0_3_BITS, bins_per_channel: 8, min_cut_interval: 5, downsample_factor: 4 }),
    {
        SceneCutConfig { threshold_bits: F64_0_3_BITS, bins_per_channel: 8, min_cut_interval: 5, downsample_factor: 4 }
    }
}

/// Scene cut detector state.
pub struct SceneCutDetector {
    config: SceneCutConfig,
    frames_since_cut: u32,
    cut_count: u64,
}

impl SceneCutDetector {
    pub closed spec fn spec_config(&self) -> SceneCutConfig { self.config }
    pub closed spec fn spec_frames_since_cut(&self) -> u32 { self.frames_since_cut }
    pub closed spec fn spec_cut_count(&self) -> u64 { self.cut_count }

    /// A detector with the given threshold (bit pattern of an `f64`) and the
    /// default settings otherwise.
    pub fn new(threshold_bits: u64) -> (r: Self)
        ensures
            r.spec_config() == (SceneCutConfig { threshold_bits, ..SceneCutConfig::default_spec() }),
            r.spec_frames_since_cut() == 0,
            r.spec_cut_count() == 0,
    {
        let d = SceneCutConfig::default();
        SceneCutDetector { config: SceneCutConfig { threshold_bits, ..d }, frames_since_cut: 0, cut_count: 0 }
    }

    /// A detector with the given configuration.
    pub fn with_config(config: SceneCutConfig) -> (r: Self)
        ensures
            r.spec_config() == config,
            r.spec_frames_since_cut() == 0,
            r.spec_cut_count() == 0,
    {
        SceneCutDetector { config, frames_since_cut: 0, cut_count: 0 }
    }

    /// Whether a frame with this similarity to the previous one is a cut:
    /// no previous frame (`None`) is never a cut, nor is any frame within
    /// `min_cut_interval` frames of the last cut; otherwise a similarity
    /// below the threshold is.
    pub open spec fn is_cut(&self, similarity_bits: Option<u64>) -> bool {
        match similarity_bits {
            None => false,
            Some(s) => self.spec_frames_since_cut() >= self.spec_config().min_cut_interval
                && f64_lt(s, self.spec_config().threshold_bits),
        }
    }

    /// Decides whether the current frame is a scene cut, given its
    /// histogram similarity with the previous frame (bit pattern of an
    /// `f64`), or `None` when there is no previous frame.
    pub fn check_frame(&mut self, similarity_bits: Option<u64>) -> (r: bool)
        requires
            old(self).spec_frames_since_cut() < u32::MAX,
            old(self).spec_cut_count() < u64::MAX,
        ensures
            r == old(self).is_cut(similarity_bits),
            final(self).spec_config() == old(self).spec_config(),
            final(self).spec_cut_count() == old(self).spec_cut_count() + if r { 1int } else { 0int },
            final(self).spec_frames_since_cut() == if similarity_bits is None || r {
                0
            } else {
                old(self).spec_frames_since_cut() + 1
            },
    {
        match similarity_bits {
            None => {
                self.frames_since_cut = 0;
                false
            },
            Some(s) => {
                if self.frames_since_cut < self.config.min_cut_interval {
                    self.frames_since_cut = self.frames_since_cut + 1;
                    return false;
                }
                if f64_bits_less(s, self.config.threshold_bits) {
                    self.cut_count = self.cut_count + 1;
                    self.frames_since_cut = 0;
                    true
                } else {
                    self.frames_since_cut = self.frames_since_cut + 1;
                    false
                }
            },
        }
    }

    /// Back to the state of a new video: no frames since the last cut. The
    /// cut count is kept.
    pub fn reset(&mut self)
        ensures
            final(self).spec_frames_since_cut() == 0,
            final(self).spec_cut_count() == old(self).spec_cut_count(),
            final(self).spec_config() == old(self).spec_config(),
    {
        self.frames_since_cut = 0;
    }

    /// Cuts detected so far.
    pub fn cut_count(&self) -> (r: u64)
        ensures
            r == self.spec_cut_count(),
    {
        self.cut_count
    }
}

impl SceneCutConfig {
    /// The default configuration as a value.
    pub open spec fn default_spec() -> SceneCutConfig {
        SceneCutConfig { threshold_bits: F64_0_3_BITS, bins_per_channel: 8, min_cut_interval: 5, downsample_factor: 4 }
    }
}

/// Two cuts are always more than `min_cut_interval` frames apart: right
/// after a cut, the next `min_cut_interval` frames cannot be cuts.
pub proof fn cuts_are_debounced(d: SceneCutDetector, similarity_bits: Option<u64>)
    requires
        d.spec_frames_since_cut() < d.spec_config().min_cut_interval,
    ensures
        !d.is_cut(similarity_bits),
{
}

} // verus!
