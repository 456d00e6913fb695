//! Per-frame decisions of the face inference engine: the scene-cut
//! notification, the keyframe/gap decision and the engine counters. The
//! caller runs the scene-cut check and the detector, resets the tracker when
//! told to, and reports inference times and face counts back.

use vstd::prelude::*;
use crate::temporal::{DecimatorStats, DetectionTrigger, TemporalConfig, TemporalDecimator};

verus! {

/// Integer counters of the engine.
#[derive(Debug, Clone, Copy, PartialEq, Eq, Structural)]
pub struct EngineCounts {
    /// Frames processed (not reset between videos).
    pub frames_processed: u64,
    /// Frames that ran a full detection.
    pub keyframe_count: u64,
    /// Frames served by tracker prediction.
    pub gap_frame_count: u64,
    /// Scene cuts seen.
    pub scene_cut_count: u64,
    /// Tracked faces reported over all frames.
    pub faces_detected: u64,
    /// Total keyframe inference time in milliseconds.
    pub total_inference_time_ms: u64,
    /// Longest keyframe inference in milliseconds.
    pub peak_inference_time_ms: u64,
}

/// What the caller does for a frame.
#[derive(Debug, Clone, Copy, PartialEq, Eq, Structural)]
pub struct FrameAction {
    /// Index of the frame within the current video.
    pub frame_idx: u64,
    /// The tracker must drop every track (a scene cut was seen).
    pub reset_tracks: bool,
    /// Why a full detection runs, or `None` for a gap frame.
    pub trigger: Option<DetectionTrigger>,
}

/// Engine state that the per-frame decisions read and update.
pub struct EngineBook {
    frame_count: u64,
    counts: EngineCounts,
    decimator: TemporalDecimator,
}

impl EngineBook {
    pub closed spec fn spec_frame_count(&self) -> u64 { self.frame_count }
    pub closed spec fn spec_counts(&self) -> EngineCounts { self.counts }
    pub closed spec fn spec_decimator(&self) -> TemporalDecimator { self.decimator }

    /// The decimator has seen exactly the frames of the current video, and
    /// every processed frame was either a keyframe or a gap frame.
    pub open spec fn wf(&self) -> bool {
        &&& self.spec_decimator().wf()
        &&& self.spec_decimator().spec_frame_count() == self.spec_frame_count()
        &&& self.spec_counts().keyframe_count + self.spec_counts().gap_frame_count
            == self.spec_counts().frames_processed
    }

    /// An engine with no frames seen and all counters at zero.
    pub fn new(temporal: TemporalConfig) -> (r: Self)
        ensures
            r.wf(),
            r.spec_frame_count() == 0,
            r.spec_counts() == (EngineCounts {
                frames_processed: 0,
                keyframe_count: 0,
                gap_frame_count: 0,
                scene_cut_count: 0,
                faces_detected: 0,
                total_inference_time_ms: 0,
                peak_inference_time_ms: 0,
            }),
            r.spec_decimator().spec_config() == temporal,
            r.spec_decimator().spec_frame_count() == 0,
            r.spec_decimator().spec_stats() == DecimatorStats::spec_zero(),
            !r.spec_decimator().spec_scene_cut_pending(),
            !r.spec_decimator().spec_swap_risk_pending(),
            r.spec_decimator().spec_scene_hash() == 0,
    {
        EngineBook {
            frame_count: 0,
            counts: EngineCounts {
                frames_processed: 0,
                keyframe_count: 0,
                gap_frame_count: 0,
                scene_cut_count: 0,
                faces_detected: 0,
                total_inference_time_ms: 0,
                peak_inference_time_ms: 0,
            },
            decimator: TemporalDecimator::new(temporal),
        }
    }

    /// The decimator as a scene cut (if any) leaves it before the decision.
    pub open spec fn decimator_before_decision(&self, is_scene_cut: bool, scene_hash: u64) -> TemporalDecimator {
        if is_scene_cut { self.spec_decimator().notified(scene_hash) } else { self.spec_decimator() }
    }

    /// Decides the current frame: a scene cut is counted, passed to the
    /// decimator and makes the tracker drop its tracks; then the decimator
    /// decides between a full detection and a gap frame, which is counted.
    pub fn plan_frame(
        &mut self,
        is_scene_cut: bool,
        scene_hash: u64,
        tracker_confidence_bits: u64,
        active_tracks: usize,
        timestamp_ms: u64,
    ) -> (r: FrameAction)
        requires
            old(self).wf(),
            old(self).spec_frame_count() < u64::MAX,
            old(self).spec_counts().frames_processed < u64::MAX,
            old(self).spec_counts().scene_cut_count < u64::MAX,
        ensures
            final(self).wf(),
            r.frame_idx == old(self).spec_frame_count(),
            r.reset_tracks == is_scene_cut,
            r.trigger == old(self).decimator_before_decision(is_scene_cut, scene_hash)
                .next_trigger(tracker_confidence_bits, active_tracks, timestamp_ms),
            final(self).spec_frame_count() == old(self).spec_frame_count() + 1,
            final(self).spec_counts() == (EngineCounts {
                frames_processed: (old(self).spec_counts().frames_processed + 1) as u64,
                keyframe_count: (old(self).spec_counts().keyframe_count + if r.trigger is Some { 1int } else { 0int }) as u64,
                gap_frame_count: (old(self).spec_counts().gap_frame_count + if r.trigger is Some { 0int } else { 1int }) as u64,
                scene_cut_count: (old(self).spec_counts().scene_cut_count + if is_scene_cut { 1int } else { 0int }) as u64,
                ..old(self).spec_counts()
            }),
    {
        let frame_idx = self.frame_count;
        self.frame_count = self.frame_count + 1;
        self.counts.frames_processed = self.counts.frames_processed + 1;
        if is_scene_cut {
            self.counts.scene_cut_count = self.counts.scene_cut_count + 1;
            self.decimator.notify_scene_cut(scene_hash);
        }
        let trigger = self.decimator.should_detect(tracker_confidence_bits, active_tracks, timestamp_ms);
        if trigger.is_some() {
            self.counts.keyframe_count = self.counts.keyframe_count + 1;
        } else {
            self.counts.gap_frame_count = self.counts.gap_frame_count + 1;
        }
        FrameAction { frame_idx, reset_tracks: is_scene_cut, trigger }
    }

    /// Adds a keyframe's inference time to the total and the peak.
    pub fn record_inference_time(&mut self, elapsed_ms: u64)
        requires
            old(self).spec_counts().total_inference_time_ms + elapsed_ms <= u64::MAX,
        ensures
            final(self).spec_counts() == (EngineCounts {
                total_inference_time_ms: (old(self).spec_counts().total_inference_time_ms + elapsed_ms) as u64,
                peak_inference_time_ms: if elapsed_ms > old(self).spec_counts().peak_inference_time_ms {
                    elapsed_ms
                } else {
                    old(self).spec_counts().peak_inference_time_ms
                },
                ..old(self).spec_counts()
            }),
            final(self).spec_frame_count() == old(self).spec_frame_count(),
            final(self).spec_decimator() == old(self).spec_decimator(),
    {
        self.counts.total_inference_time_ms = self.counts.total_inference_time_ms + elapsed_ms;
        if elapsed_ms > self.counts.peak_inference_time_ms {
            self.counts.peak_inference_time_ms = elapsed_ms;
        }
    }

    /// Adds the faces reported for a frame.
    pub fn record_faces(&mut self, count: u64)
        requires
            old(self).spec_counts().faces_detected + count <= u64::MAX,
        ensures
            final(self).spec_counts() == (EngineCounts {
                faces_detected: (old(self).spec_counts().faces_detected + count) as u64,
                ..old(self).spec_counts()
            }),
            final(self).spec_frame_count() == old(self).spec_frame_count(),
            final(self).spec_decimator() == old(self).spec_decimator(),
    {
        self.counts.faces_detected = self.counts.faces_detected + count;
    }

    /// Starts a new video: the frame index and the decimator start over; the
    /// counters keep accumulating.
    pub fn reset(&mut self)
        requires
            old(self).wf(),
        ensures
            final(self).wf(),
            final(self).spec_frame_count() == 0,
            final(self).spec_counts() == old(self).spec_counts(),
            final(self).spec_decimator().spec_config() == old(self).spec_decimator().spec_config(),
            final(self).spec_decimator().spec_frame_count() == 0,
            final(self).spec_decimator().spec_stats() == DecimatorStats::spec_zero(),
            !final(self).spec_decimator().spec_scene_cut_pending(),
            !final(self).spec_decimator().spec_swap_risk_pending(),
            final(self).spec_decimator().spec_scene_hash() == 0,
    {
        self.decimator.reset();
        self.frame_count = 0;
    }

    /// The counters.
    pub fn counts(&self) -> (r: EngineCounts)
        ensures
            r == self.spec_counts(),
    {
        self.counts
    }

    /// The decimator, for its statistics and configuration.
    pub fn decimator(&self) -> (r: &TemporalDecimator)
        ensures
            *r == self.spec_decimator(),
    {
        &self.decimator
    }

    /// Frames seen in the current video.
    pub fn frame_count(&self) -> (r: u64)
        ensures
            r == self.spec_frame_count(),
    {
        self.frame_count
    }
}

} // verus!
