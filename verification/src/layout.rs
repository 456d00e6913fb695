//! Classifications and record types shared by the layout, speaker, split and
//! tracking stages.

use vstd::prelude::*;
use crate::float_bits::{f64_bits_less, f64_lt};

verus! {

/// Detected video layout.
#[derive(Debug, Clone, Copy, PartialEq, Eq, Structural)]
pub enum VideoLayout {
    /// Single person talking head.
    SinglePerson,
    /// Two people side by side (podcast format).
    TwoPeopleSideBySide,
}

/// Active speaker of a time segment.
#[derive(Debug, Clone, Copy, PartialEq, Eq, Structural)]
pub enum ActiveSpeaker {
    /// The left person is speaking.
    Left,
    /// The right person is speaking.
    Right,
    /// Both are speaking, or it is unclear.
    Both,
    /// Nobody is speaking (silence).
    Silence,
}

/// Output layout of the split renderer.
#[derive(Debug, Clone, Copy, PartialEq, Eq, Structural)]
pub enum SplitLayout {
    /// Two panels, top and bottom.
    SplitTopBottom,
    /// Single full frame with face tracking.
    FullFrame,
}

/// Evaluator of split-view decisions.
pub struct SplitEvaluator;

/// Bit pattern of `0.45_f64`, the detection score a face needs to count as
/// an active speaker.
pub const SPEAKER_SCORE_THRESHOLD_BITS: u64 = 0x3fdc_cccc_cccc_cccd;

/// Number of detection scores (bit patterns of `f64` values) above the
/// speaker threshold.
pub open spec fn confident_count(scores: Seq<u64>) -> nat
    decreases scores.len(),
{
    if scores.len() == 0 {
        0
    } else {
        confident_count(scores.drop_last())
            + if f64_lt(SPEAKER_SCORE_THRESHOLD_BITS, scores.last()) { 1nat } else { 0nat }
    }
}

/// Number of frames with at least two confident faces.
pub open spec fn dual_frame_count(frames: Seq<Seq<u64>>) -> nat
    decreases frames.len(),
{
    if frames.len() == 0 {
        0
    } else {
        dual_frame_count(frames.drop_last()) + if confident_count(frames.last()) >= 2 { 1nat } else { 0nat }
    }
}

/// The detection scores of each frame, as sequences.
pub open spec fn scores_view(frames: Seq<Vec<u64>>) -> Seq<Seq<u64>> {
    frames.map_values(|f: Vec<u64>| f@)
}

impl SplitEvaluator {
    /// Whether two speakers are active often enough to split the view: at
    /// least three frames, and at least half of all frames, show two or
    /// more faces scoring above 0.45 (scores given as `f64` bit patterns,
    /// one list per frame).
    pub fn has_sustained_dual_activity(frame_scores: &Vec<Vec<u64>>) -> (r: bool)
        ensures
            r == (frame_scores@.len() > 0
                && dual_frame_count(scores_view(frame_scores@)) >= 3
                && 2 * dual_frame_count(scores_view(frame_scores@)) >= frame_scores@.len()),
    {
        let ghost v = scores_view(frame_scores@);
        let n = frame_scores.len();
        let mut dual: usize = 0;
        let mut i: usize = 0;
        while i < n
            invariant
                n == frame_scores@.len(),
                v == scores_view(frame_scores@),
                i <= n,
                dual == dual_frame_count(v.take(i as int)),
                dual <= i,
            decreases n - i,
        {
            let scores = &frame_scores[i];
            let mut confident: usize = 0;
            let mut j: usize = 0;
            while j < scores.len()
                invariant
                    j <= scores@.len(),
                    confident == confident_count(scores@.take(j as int)),
                    confident <= j,
                decreases scores@.len() - j,
            {
                proof {
                    assert(scores@.take(j as int + 1).drop_last() =~= scores@.take(j as int));
                }
                if f64_bits_less(SPEAKER_SCORE_THRESHOLD_BITS, scores[j]) {
                    confident = confident + 1;
                }
                j = j + 1;
            }
            proof {
                assert(scores@.take(j as int) =~= scores@);
                assert(v.take(i as int + 1).drop_last() =~= v.take(i as int));
                assert(v[i as int] == scores@);
            }
            if confident >= 2 {
                dual = dual + 1;
            }
            i = i + 1;
        }
        assert(v.take(n as int) =~= v);
        n > 0 && dual >= 3 && dual >= n - dual
    }

    /// The distinct track identifiers among the detections of all frames
    /// (one list of identifiers per frame), each once. A speaker split needs
    /// at least two of them.
    pub fn distinct_track_ids(frame_tracks: &Vec<Vec<u32>>) -> (r: Vec<u32>)
        ensures
            forall|a: int, b: int| 0 <= a < b < r@.len() ==> r@[a] != r@[b],
            forall|id: u32| r@.contains(id) <==> track_appears(ids_view(frame_tracks@), id),
    {
        let ghost v = ids_view(frame_tracks@);
        let mut out: Vec<u32> = Vec::new();
        let mut i: usize = 0;
        while i < frame_tracks.len()
            invariant
                v == ids_view(frame_tracks@),
                i <= frame_tracks@.len(),
                forall|a: int, b: int| 0 <= a < b < out@.len() ==> out@[a] != out@[b],
                forall|id: u32| out@.contains(id) <==> seen_before(v, i as int, 0, id),
            decreases frame_tracks@.len() - i,
        {
            let ids = &frame_tracks[i];
            proof {
                assert(v[i as int] == ids@);
            }
            let mut j: usize = 0;
            while j < ids.len()
                invariant
                    v == ids_view(frame_tracks@),
                    i < frame_tracks@.len(),
                    v[i as int] == ids@,
                    j <= ids@.len(),
                    forall|a: int, b: int| 0 <= a < b < out@.len() ==> out@[a] != out@[b],
                    forall|id: u32| out@.contains(id) <==> seen_before(v, i as int, j as int, id),
                decreases ids@.len() - j,
            {
                let id = ids[j];
                let present = contains_id(&out, id);
                let ghost prev = out@;
                if !present {
                    out.push(id);
                }
                proof {
                    assert forall|y: u32| out@.contains(y) <==> seen_before(v, i as int, j as int + 1, y) by {
                        if seen_before(v, i as int, j as int + 1, y) && y != id {
                            let (a, b) = choose|a: int, b: int| #![trigger v[a][b]] seen_at(v, i as int, j as int + 1, a, b, y);
                            assert(seen_at(v, i as int, j as int, a, b, y));
                        }
                        if seen_before(v, i as int, j as int, y) {
                            let (a, b) = choose|a: int, b: int| #![trigger v[a][b]] seen_at(v, i as int, j as int, a, b, y);
                            assert(seen_at(v, i as int, j as int + 1, a, b, y));
                        }
                        if y == id {
                            assert(seen_at(v, i as int, j as int + 1, i as int, j as int, y));
                        }
                        if out@.contains(y) && !prev.contains(y) {
                            let k = choose|k: int| 0 <= k < out@.len() && out@[k] == y;
                            assert(k == prev.len());
                        }
                        if prev.contains(y) {
                            let k = choose|k: int| 0 <= k < prev.len() && prev[k] == y;
                            assert(out@[k] == y);
                        }
                        if y == id && !present {
                            assert(out@[prev.len() as int] == y);
                        }
                    }
                }
                j = j + 1;
            }
            proof {
                assert forall|y: u32| seen_before(v, i as int, j as int, y) <==> seen_before(v, i as int + 1, 0, y) by {
                    if seen_before(v, i as int, j as int, y) {
                        let (a, b) = choose|a: int, b: int| #![trigger v[a][b]] seen_at(v, i as int, j as int, a, b, y);
                        assert(seen_at(v, i as int + 1, 0, a, b, y));
                    }
                    if seen_before(v, i as int + 1, 0, y) {
                        let (a, b) = choose|a: int, b: int| #![trigger v[a][b]] seen_at(v, i as int + 1, 0, a, b, y);
                        assert(seen_at(v, i as int, j as int, a, b, y));
                    }
                }
            }
            i = i + 1;
        }
        proof {
            assert forall|y: u32| seen_before(v, i as int, 0, y) <==> track_appears(v, y) by {
                if seen_before(v, i as int, 0, y) {
                    let (a, b) = choose|a: int, b: int| #![trigger v[a][b]] seen_at(v, i as int, 0, a, b, y);
                    assert(0 <= a < v.len() && 0 <= b < v[a].len() && v[a][b] == y);
                }
                if track_appears(v, y) {
                    let (a, b) = choose|a: int, b: int| #![trigger v[a][b]] 0 <= a < v.len() && 0 <= b < v[a].len() && v[a][b] == y;
                    assert(seen_at(v, i as int, 0, a, b, y));
                }
            }
        }
        out
    }
}

/// The identifiers of each frame, as sequences.
pub open spec fn ids_view(frames: Seq<Vec<u32>>) -> Seq<Seq<u32>> {
    frames.map_values(|f: Vec<u32>| f@)
}

/// The track appears in some frame.
pub open spec fn track_appears(frames: Seq<Seq<u32>>, id: u32) -> bool {
    exists|a: int, b: int| #![trigger frames[a][b]] 0 <= a < frames.len() && 0 <= b < frames[a].len() && frames[a][b] == id
}

/// Position `(a, b)` holds `id` and comes before position `(i, j)`.
pub open spec fn seen_at(frames: Seq<Seq<u32>>, i: int, j: int, a: int, b: int, id: u32) -> bool {
    &&& 0 <= a < frames.len()
    &&& 0 <= b < frames[a].len()
    &&& (a < i || (a == i && b < j))
    &&& frames[a][b] == id
}

/// `id` occurs before position `(i, j)`.
pub open spec fn seen_before(frames: Seq<Seq<u32>>, i: int, j: int, id: u32) -> bool {
    exists|a: int, b: int| #![trigger frames[a][b]] seen_at(frames, i, j, a, b, id)
}

/// Whether `id` is in `ids`.
fn contains_id(ids: &Vec<u32>, id: u32) -> (r: bool)
    ensures
        r == ids@.contains(id),
{
    let mut k: usize = 0;
    while k < ids.len()
        invariant
            k <= ids@.len(),
            forall|q: int| 0 <= q < k ==> ids@[q] != id,
        decreases ids@.len() - k,
    {
        if ids[k] == id {
            return true;
        }
        k = k + 1;
    }
    false
}

/// Tracker statistics.
#[derive(Debug, Clone, Copy, PartialEq, Eq, Structural)]
pub struct TrackerStats {
    /// Tracks currently active.
    pub active_tracks: usize,
    /// Active tracks confirmed by enough hits.
    pub confirmed_tracks: usize,
    /// Tracks created since the start.
    pub total_tracks_created: u64,
    /// Scene cuts that reset the tracker.
    pub scene_cuts_handled: u64,
}

impl Default for TrackerStats {
    fn default() -> (r: Self)
        ensures
            r == (TrackerStats { active_tracks: 0, confirmed_tracks: 0, total_tracks_created: 0, scene_cuts_handled: 0 }),
    {
        TrackerStats { active_tracks: 0, confirmed_tracks: 0, total_tracks_created: 0, scene_cuts_handled: 0 }
    }
}

} // verus!
