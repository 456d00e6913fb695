//! Decisions of the tier-aware clip pipelines, as state machines: from the
//! current state and the outcome of the last step to the next state and the
//! next step to run. The caller performs each step (probing, detection,
//! planning, rendering, thumbnails) and reports its outcome back.
//!
//! Split view: the split decision uses the cached scene analysis when there
//! is one, and runs detection inline only without it; a speaker-aware split
//! is tried only with the cached analysis, and when it cannot be made the
//! standard split is rendered instead; a single or alternating face falls
//! back to the full-frame pipeline.
//!
//! Full frame: detections come from the cache when there is one, otherwise
//! from inline detection; the speaker-aware tier plans the camera with the
//! premium planner, every other tier with the tier-aware smoother; then one
//! render and the thumbnail.

use vstd::prelude::*;

verus! {

/// Detection tier of a clip style.
#[derive(Debug, Clone, Copy, PartialEq, Eq, Structural)]
pub enum DetectionTier {
    /// No face detection.
    Disabled,
    /// Face detection and tracking.
    Basic,
    /// Face detection with speaker (mouth activity) awareness.
    SpeakerAware,
    /// Face detection with motion awareness.
    MotionAware,
    /// Full cinematic camera.
    Cinematic,
}

// ---------------------------------------------------------------------------
// Split view
// ---------------------------------------------------------------------------

/// Where the split pipeline stands.
#[derive(Debug, Clone, Copy, PartialEq, Eq, Structural)]
pub enum SplitStage {
    /// Nothing has run yet.
    Start,
    /// Waiting for the video metadata.
    Probing,
    /// Waiting for the split decision (from the cache or inline detection).
    Analyzing,
    /// Waiting for the speaker-aware split render.
    SpeakerSplit,
    /// Waiting for the standard split render.
    StandardSplit,
    /// Waiting for the full-frame pipeline.
    FullFrame,
    /// Waiting for the thumbnail and completion log.
    Finalizing,
    /// Finished successfully.
    Done,
    /// Stopped on an error.
    Failed,
}

/// State of a split-view run.
#[derive(Debug, Clone, Copy, PartialEq, Eq, Structural)]
pub struct SplitPlanState {
    pub stage: SplitStage,
    /// A cached scene analysis was supplied.
    pub has_cache: bool,
    pub tier: DetectionTier,
}

/// Outcome of the step the caller last ran.
#[derive(Debug, Clone, Copy, PartialEq, Eq, Structural)]
pub enum SplitPlanEvent {
    /// The run is starting.
    Begin,
    /// The video metadata was read.
    Probed,
    /// The split decision: whether both faces are present together.
    SplitDecided { should_split: bool },
    /// The speaker-aware split could not be made (no speaker boxes, or its
    /// render failed).
    SpeakerSplitFailed,
    /// The requested render finished.
    RenderDone,
    /// The thumbnail and log step finished (a thumbnail failure only warns).
    Finalized,
    /// A step failed with an error that ends the run.
    StepFailed,
}

/// Next step for the caller to run.
#[derive(Debug, Clone, Copy, PartialEq, Eq, Structural)]
pub enum SplitPlanAction {
    /// Read the video metadata.
    ProbeVideo,
    /// Derive the split decision from the cached analysis (no detection).
    UseCachedAnalysis,
    /// Run face detection now and derive the split decision from it.
    DetectInline,
    /// Hand the clip to the full-frame pipeline.
    RenderFullFrame,
    /// Compute speaker boxes from the cached analysis and render them.
    RenderSpeakerSplit,
    /// Render the standard split with vertical positioning.
    RenderStandardSplit,
    /// Write the thumbnail and log completion.
    Finalize,
    /// Report success.
    Finish,
    /// Report the error of the failed step.
    Abort,
    /// The event does not apply in this stage: nothing to do.
    Ignore,
}

impl SplitPlanState {
    /// The state before a run.
    pub fn new(tier: DetectionTier, has_cache: bool) -> (r: Self)
        ensures
            r == (SplitPlanState { stage: SplitStage::Start, has_cache, tier }),
    {
        SplitPlanState { stage: SplitStage::Start, has_cache, tier }
    }

    pub open spec fn at(self, stage: SplitStage) -> Self {
        SplitPlanState { stage, ..self }
    }

    pub open spec fn is_terminal(self) -> bool {
        self.stage == SplitStage::Done || self.stage == SplitStage::Failed
    }
}

/// The transition table of the split pipeline.
pub open spec fn split_step_spec(state: SplitPlanState, event: SplitPlanEvent) -> (SplitPlanState, SplitPlanAction) {
    match (state.stage, event) {
        (SplitStage::Done, _) | (SplitStage::Failed, _) => (state, SplitPlanAction::Ignore),
        (_, SplitPlanEvent::StepFailed) => (state.at(SplitStage::Failed), SplitPlanAction::Abort),
        (SplitStage::Start, SplitPlanEvent::Begin) => (state.at(SplitStage::Probing), SplitPlanAction::ProbeVideo),
        (SplitStage::Probing, SplitPlanEvent::Probed) => (
            state.at(SplitStage::Analyzing),
            if state.has_cache { SplitPlanAction::UseCachedAnalysis } else { SplitPlanAction::DetectInline },
        ),
        (SplitStage::Analyzing, SplitPlanEvent::SplitDecided { should_split }) =>
            if !should_split {
                (state.at(SplitStage::FullFrame), SplitPlanAction::RenderFullFrame)
            } else if state.tier == DetectionTier::SpeakerAware && state.has_cache {
                (state.at(SplitStage::SpeakerSplit), SplitPlanAction::RenderSpeakerSplit)
            } else {
                (state.at(SplitStage::StandardSplit), SplitPlanAction::RenderStandardSplit)
            },
        (SplitStage::SpeakerSplit, SplitPlanEvent::SpeakerSplitFailed) =>
            (state.at(SplitStage::StandardSplit), SplitPlanAction::RenderStandardSplit),
        (SplitStage::SpeakerSplit, SplitPlanEvent::RenderDone)
        | (SplitStage::StandardSplit, SplitPlanEvent::RenderDone)
        | (SplitStage::FullFrame, SplitPlanEvent::RenderDone) => (state.at(SplitStage::Finalizing), SplitPlanAction::Finalize),
        (SplitStage::Finalizing, SplitPlanEvent::Finalized) => (state.at(SplitStage::Done), SplitPlanAction::Finish),
        _ => (state, SplitPlanAction::Ignore),
    }
}

/// Laws of the split pipeline, over every state and event: each step is
/// taken for the reason the pipeline gives it, and moves to the stage that
/// waits for that step.
/// - A one-face or alternating-faces decision falls back to full frame, and
///   only that decision does.
/// - A split render follows only a decision to split, or (the standard
///   split) a speaker split that could not be made.
/// - The thumbnail step follows only a finished render, and success only
///   the thumbnail step.
/// - Probing starts a run; the split decision is asked for once the video is
///   probed, from the cache exactly when there is one.
/// - An error ends any unfinished run; an event that does not apply changes
///   nothing.
pub proof fn split_steps_follow_their_reasons(state: SplitPlanState, event: SplitPlanEvent)
    ensures ({
        let (next, action) = split_step_spec(state, event);
        let live = !state.is_terminal();
        &&& (action == SplitPlanAction::RenderFullFrame) <==>
            (state.stage == SplitStage::Analyzing && event == (SplitPlanEvent::SplitDecided { should_split: false }))
        &&& action == SplitPlanAction::RenderFullFrame ==> next.stage == SplitStage::FullFrame
        &&& action == SplitPlanAction::RenderSpeakerSplit ==>
            state.stage == SplitStage::Analyzing && event == (SplitPlanEvent::SplitDecided { should_split: true })
                && next.stage == SplitStage::SpeakerSplit
        &&& action == SplitPlanAction::RenderStandardSplit ==> next.stage == SplitStage::StandardSplit && (
            (state.stage == SplitStage::Analyzing && event == (SplitPlanEvent::SplitDecided { should_split: true }))
            || (state.stage == SplitStage::SpeakerSplit && event == SplitPlanEvent::SpeakerSplitFailed))
        &&& (state.stage == SplitStage::Analyzing && event == (SplitPlanEvent::SplitDecided { should_split: true }))
            ==> (action == SplitPlanAction::RenderSpeakerSplit || action == SplitPlanAction::RenderStandardSplit)
        &&& (action == SplitPlanAction::Finalize) <==> (event == SplitPlanEvent::RenderDone && (
            state.stage == SplitStage::SpeakerSplit || state.stage == SplitStage::StandardSplit
            || state.stage == SplitStage::FullFrame))
        &&& action == SplitPlanAction::Finalize ==> next.stage == SplitStage::Finalizing
        &&& (action == SplitPlanAction::Finish) <==> (state.stage == SplitStage::Finalizing && event == SplitPlanEvent::Finalized)
        &&& action == SplitPlanAction::Finish ==> next.stage == SplitStage::Done
        &&& (action == SplitPlanAction::ProbeVideo) <==> (state.stage == SplitStage::Start && event == SplitPlanEvent::Begin)
        &&& action == SplitPlanAction::ProbeVideo ==> next.stage == SplitStage::Probing
        &&& (action == SplitPlanAction::UseCachedAnalysis || action == SplitPlanAction::DetectInline)
            <==> (state.stage == SplitStage::Probing && event == SplitPlanEvent::Probed)
        &&& action == SplitPlanAction::UseCachedAnalysis ==> state.has_cache && next.stage == SplitStage::Analyzing
        &&& action == SplitPlanAction::DetectInline ==> !state.has_cache && next.stage == SplitStage::Analyzing
        &&& (action == SplitPlanAction::Abort) <==> (live && event == SplitPlanEvent::StepFailed)
        &&& action == SplitPlanAction::Abort ==> next.stage == SplitStage::Failed
        &&& action == SplitPlanAction::Ignore ==> next == state
        &&& next.has_cache == state.has_cache && next.tier == state.tier
    }),
{
}

/// The next state and step of a split-view run after `event`.
pub fn next_split_step(state: SplitPlanState, event: SplitPlanEvent) -> (r: (SplitPlanState, SplitPlanAction))
    ensures
        r == split_step_spec(state, event),
        // With a cached analysis no detection runs.
        state.has_cache ==> r.1 != SplitPlanAction::DetectInline,
        // The speaker-aware split is only tried by the speaker-aware tier
        // with a cached analysis.
        r.1 == SplitPlanAction::RenderSpeakerSplit ==> state.tier == DetectionTier::SpeakerAware && state.has_cache,
        // A speaker split that cannot be made falls back to the standard one.
        (state.stage == SplitStage::SpeakerSplit && event == SplitPlanEvent::SpeakerSplitFailed)
            ==> r.1 == SplitPlanAction::RenderStandardSplit,
        // A decision not to split falls back to full-frame tracking, and a
        // split render follows only a decision to split (or a failed speaker
        // split).
        (state.stage == SplitStage::Analyzing && event == (SplitPlanEvent::SplitDecided { should_split: false }))
            ==> r == (SplitPlanState { stage: SplitStage::FullFrame, ..state }, SplitPlanAction::RenderFullFrame),
        (r.1 == SplitPlanAction::RenderSpeakerSplit || r.1 == SplitPlanAction::RenderStandardSplit) ==>
            event == (SplitPlanEvent::SplitDecided { should_split: true }) || event == SplitPlanEvent::SpeakerSplitFailed,
        // A finished run stays finished.
        state.is_terminal() ==> r == (state, SplitPlanAction::Ignore),
        // Cache and tier never change.
        r.0.has_cache == state.has_cache && r.0.tier == state.tier,
{
    let at = |stage: SplitStage| -> (s: SplitPlanState)
        ensures
            s == state.at(stage),
    { SplitPlanState { stage, has_cache: state.has_cache, tier: state.tier } };
    match (state.stage, event) {
        (SplitStage::Done, _) | (SplitStage::Failed, _) => (state, SplitPlanAction::Ignore),
        (_, SplitPlanEvent::StepFailed) => (at(SplitStage::Failed), SplitPlanAction::Abort),
        (SplitStage::Start, SplitPlanEvent::Begin) => (at(SplitStage::Probing), SplitPlanAction::ProbeVideo),
        (SplitStage::Probing, SplitPlanEvent::Probed) => (
            at(SplitStage::Analyzing),
            if state.has_cache { SplitPlanAction::UseCachedAnalysis } else { SplitPlanAction::DetectInline },
        ),
        (SplitStage::Analyzing, SplitPlanEvent::SplitDecided { should_split }) =>
            if !should_split {
                (at(SplitStage::FullFrame), SplitPlanAction::RenderFullFrame)
            } else if state.tier == DetectionTier::SpeakerAware && state.has_cache {
                (at(SplitStage::SpeakerSplit), SplitPlanAction::RenderSpeakerSplit)
            } else {
                (at(SplitStage::StandardSplit), SplitPlanAction::RenderStandardSplit)
            },
        (SplitStage::SpeakerSplit, SplitPlanEvent::SpeakerSplitFailed) =>
            (at(SplitStage::StandardSplit), SplitPlanAction::RenderStandardSplit),
        (SplitStage::SpeakerSplit, SplitPlanEvent::RenderDone)
        | (SplitStage::StandardSplit, SplitPlanEvent::RenderDone)
        | (SplitStage::FullFrame, SplitPlanEvent::RenderDone) => (at(SplitStage::Finalizing), SplitPlanAction::Finalize),
        (SplitStage::Finalizing, SplitPlanEvent::Finalized) => (at(SplitStage::Done), SplitPlanAction::Finish),
        _ => (state, SplitPlanAction::Ignore),
    }
}

// ---------------------------------------------------------------------------
// Full frame
// ---------------------------------------------------------------------------

/// Where the full-frame pipeline stands.
#[derive(Debug, Clone, Copy, PartialEq, Eq, Structural)]
pub enum CropStage {
    /// Nothing has run yet.
    Start,
    /// Waiting for the video metadata.
    Probing,
    /// Waiting for the face detections.
    Detecting,
    /// Waiting for the camera plan and crop windows.
    Planning,
    /// Waiting for the render.
    Rendering,
    /// Waiting for the thumbnail and completion log.
    Finalizing,
    /// Finished successfully.
    Done,
    /// Stopped on an error.
    Failed,
}

/// State of a full-frame run.
#[derive(Debug, Clone, Copy, PartialEq, Eq, Structural)]
pub struct CropPlanState {
    pub stage: CropStage,
    /// A cached scene analysis was supplied.
    pub has_cache: bool,
    pub tier: DetectionTier,
}

/// Outcome of the step the caller last ran.
#[derive(Debug, Clone, Copy, PartialEq, Eq, Structural)]
pub enum CropPlanEvent {
    /// The run is starting.
    Begin,
    /// The video metadata was read.
    Probed,
    /// The detections are available.
    DetectionsReady,
    /// The camera plan and crop windows are available.
    PlanReady,
    /// The render finished.
    RenderDone,
    /// The thumbnail and log step finished (a thumbnail failure only warns).
    Finalized,
    /// A step failed with an error that ends the run.
    StepFailed,
}

/// Next step for the caller to run.
#[derive(Debug, Clone, Copy, PartialEq, Eq, Structural)]
pub enum CropPlanAction {
    /// Read the video metadata.
    ProbeVideo,
    /// Take the detections from the cached analysis.
    UseCachedDetections,
    /// Run face detection now.
    DetectInline,
    /// Plan the camera with the premium speaker-aware planner.
    PlanWithPremiumPlanner,
    /// Plan the camera with the tier-aware smoother and crop planner.
    PlanWithTierSmoother,
    /// Render the crop windows in one pass.
    RenderFull,
    /// Write the thumbnail and log completion.
    Finalize,
    /// Report success.
    Finish,
    /// Report the error of the failed step.
    Abort,
    /// The event does not apply in this stage: nothing to do.
    Ignore,
}

impl CropPlanState {
    /// The state before a run.
    pub fn new(tier: DetectionTier, has_cache: bool) -> (r: Self)
        ensures
            r == (CropPlanState { stage: CropStage::Start, has_cache, tier }),
    {
        CropPlanState { stage: CropStage::Start, has_cache, tier }
    }

    pub open spec fn at(self, stage: CropStage) -> Self {
        CropPlanState { stage, ..self }
    }

    pub open spec fn is_terminal(self) -> bool {
        self.stage == CropStage::Done || self.stage == CropStage::Failed
    }
}

/// The transition table of the full-frame pipeline.
pub open spec fn crop_step_spec(state: CropPlanState, event: CropPlanEvent) -> (CropPlanState, CropPlanAction) {
    match (state.stage, event) {
        (CropStage::Done, _) | (CropStage::Failed, _) => (state, CropPlanAction::Ignore),
        (_, CropPlanEvent::StepFailed) => (state.at(CropStage::Failed), CropPlanAction::Abort),
        (CropStage::Start, CropPlanEvent::Begin) => (state.at(CropStage::Probing), CropPlanAction::ProbeVideo),
        (CropStage::Probing, CropPlanEvent::Probed) => (
            state.at(CropStage::Detecting),
            if state.has_cache { CropPlanAction::UseCachedDetections } else { CropPlanAction::DetectInline },
        ),
        (CropStage::Detecting, CropPlanEvent::DetectionsReady) => (
            state.at(CropStage::Planning),
            if state.tier == DetectionTier::SpeakerAware {
                CropPlanAction::PlanWithPremiumPlanner
            } else {
                CropPlanAction::PlanWithTierSmoother
            },
        ),
        (CropStage::Planning, CropPlanEvent::PlanReady) => (state.at(CropStage::Rendering), CropPlanAction::RenderFull),
        (CropStage::Rendering, CropPlanEvent::RenderDone) => (state.at(CropStage::Finalizing), CropPlanAction::Finalize),
        (CropStage::Finalizing, CropPlanEvent::Finalized) => (state.at(CropStage::Done), CropPlanAction::Finish),
        _ => (state, CropPlanAction::Ignore),
    }
}

/// Laws of the full-frame pipeline, over every state and event: the one
/// render follows a ready camera plan and only that; the thumbnail step
/// follows only a finished render, and success only the thumbnail step;
/// detections come from the cache exactly when there is one; the planner is
/// chosen by tier once detections are ready; an error ends any unfinished
/// run; an event that does not apply changes nothing.
pub proof fn crop_steps_follow_their_reasons(state: CropPlanState, event: CropPlanEvent)
    ensures ({
        let (next, action) = crop_step_spec(state, event);
        let live = !state.is_terminal();
        &&& (action == CropPlanAction::RenderFull) <==> (state.stage == CropStage::Planning && event == CropPlanEvent::PlanReady)
        &&& action == CropPlanAction::RenderFull ==> next.stage == CropStage::Rendering
        &&& (action == CropPlanAction::Finalize) <==> (state.stage == CropStage::Rendering && event == CropPlanEvent::RenderDone)
        &&& action == CropPlanAction::Finalize ==> next.stage == CropStage::Finalizing
        &&& (action == CropPlanAction::Finish) <==> (state.stage == CropStage::Finalizing && event == CropPlanEvent::Finalized)
        &&& action == CropPlanAction::Finish ==> next.stage == CropStage::Done
        &&& (action == CropPlanAction::ProbeVideo) <==> (state.stage == CropStage::Start && event == CropPlanEvent::Begin)
        &&& action == CropPlanAction::ProbeVideo ==> next.stage == CropStage::Probing
        &&& (action == CropPlanAction::UseCachedDetections || action == CropPlanAction::DetectInline)
            <==> (state.stage == CropStage::Probing && event == CropPlanEvent::Probed)
        &&& action == CropPlanAction::UseCachedDetections ==> state.has_cache && next.stage == CropStage::Detecting
        &&& action == CropPlanAction::DetectInline ==> !state.has_cache && next.stage == CropStage::Detecting
        &&& (action == CropPlanAction::PlanWithPremiumPlanner || action == CropPlanAction::PlanWithTierSmoother)
            <==> (state.stage == CropStage::Detecting && event == CropPlanEvent::DetectionsReady)
        &&& action == CropPlanAction::PlanWithPremiumPlanner ==> state.tier == DetectionTier::SpeakerAware
            && next.stage == CropStage::Planning
        &&& action == CropPlanAction::PlanWithTierSmoother ==> state.tier != DetectionTier::SpeakerAware
            && next.stage == CropStage::Planning
        &&& (action == CropPlanAction::Abort) <==> (live && event == CropPlanEvent::StepFailed)
        &&& action == CropPlanAction::Abort ==> next.stage == CropStage::Failed
        &&& action == CropPlanAction::Ignore ==> next == state
        &&& next.has_cache == state.has_cache && next.tier == state.tier
    }),
{
}

/// The next state and step of a full-frame run after `event`.
pub fn next_crop_step(state: CropPlanState, event: CropPlanEvent) -> (r: (CropPlanState, CropPlanAction))
    ensures
        r == crop_step_spec(state, event),
        // With a cached analysis no detection runs.
        state.has_cache ==> r.1 != CropPlanAction::DetectInline,
        // The planner is chosen by tier alone.
        r.1 == CropPlanAction::PlanWithPremiumPlanner ==> state.tier == DetectionTier::SpeakerAware,
        r.1 == CropPlanAction::PlanWithTierSmoother ==> state.tier != DetectionTier::SpeakerAware,
        // A ready plan is rendered; the thumbnail step follows only a render.
        (state.stage == CropStage::Planning && event == CropPlanEvent::PlanReady)
            ==> r == (CropPlanState { stage: CropStage::Rendering, ..state }, CropPlanAction::RenderFull),
        r.1 == CropPlanAction::Finalize ==> state.stage == CropStage::Rendering && event == CropPlanEvent::RenderDone,
        // A finished run stays finished.
        state.is_terminal() ==> r == (state, CropPlanAction::Ignore),
        // Cache and tier never change.
        r.0.has_cache == state.has_cache && r.0.tier == state.tier,
{
    let at = |stage: CropStage| -> (s: CropPlanState)
        ensures
            s == state.at(stage),
    { CropPlanState { stage, has_cache: state.has_cache, tier: state.tier } };
    match (state.stage, event) {
        (CropStage::Done, _) | (CropStage::Failed, _) => (state, CropPlanAction::Ignore),
        (_, CropPlanEvent::StepFailed) => (at(CropStage::Failed), CropPlanAction::Abort),
        (CropStage::Start, CropPlanEvent::Begin) => (at(CropStage::Probing), CropPlanAction::ProbeVideo),
        (CropStage::Probing, CropPlanEvent::Probed) => (
            at(CropStage::Detecting),
            if state.has_cache { CropPlanAction::UseCachedDetections } else { CropPlanAction::DetectInline },
        ),
        (CropStage::Detecting, CropPlanEvent::DetectionsReady) => (
            at(CropStage::Planning),
            if state.tier == DetectionTier::SpeakerAware {
                CropPlanAction::PlanWithPremiumPlanner
            } else {
                CropPlanAction::PlanWithTierSmoother
            },
        ),
        (CropStage::Planning, CropPlanEvent::PlanReady) => (at(CropStage::Rendering), CropPlanAction::RenderFull),
        (CropStage::Rendering, CropPlanEvent::RenderDone) => (at(CropStage::Finalizing), CropPlanAction::Finalize),
        (CropStage::Finalizing, CropPlanEvent::Finalized) => (at(CropStage::Done), CropPlanAction::Finish),
        _ => (state, CropPlanAction::Ignore),
    }
}

} // verus!
