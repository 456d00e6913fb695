//! Face timeline: per-frame face detections of a video with the engine's
//! configuration and statistics, and the queries over it (track ids, a
//! track's frames, face counts, track lifespans, keyframes, scene cuts).
//!
//! Real-valued fields (frame rate, normalized box coordinates, confidences,
//! timing averages) are carried as bit patterns of their `f64` values.

use vstd::prelude::*;
use std::collections::HashMap;
use crate::engine_config::{engine_mode_name, EngineMode, F64_1_0_BITS};

verus! {

broadcast use vstd::std_specs::hash::group_hash_axioms;

/// Schema version of the timeline format.
pub const TIMELINE_VERSION: &'static str = "1.0";

/// Video information.
#[derive(Debug, Clone, Copy, PartialEq, Eq, Structural)]
pub struct VideoInfo {
    /// Frame width in pixels.
    pub width: u32,
    /// Frame height in pixels.
    pub height: u32,
    /// Bit pattern of the frame rate (`f64`).
    pub fps_bits: u64,
    /// Duration in milliseconds.
    pub duration_ms: u64,
}

/// Engine configuration captured at processing time.
#[derive(Debug, Clone)]
pub struct EngineConfigSnapshot {
    /// Engine mode name.
    pub mode: String,
    /// Inference dimensions `[width, height]`.
    pub inference_size: [u32; 2],
    /// Temporal decimation interval.
    pub detect_every_n: u32,
    /// Bit pattern of the confidence threshold (`f64`).
    pub confidence_threshold_bits: u64,
}

/// Face box in normalized coordinates, as `f64` bit patterns.
#[derive(Debug, Clone, Copy, PartialEq, Eq, Structural)]
pub struct FaceBBox {
    pub x_bits: u64,
    pub y_bits: u64,
    pub w_bits: u64,
    pub h_bits: u64,
}

/// One face in a timeline frame.
#[derive(Debug, Clone, Copy, PartialEq, Eq, Structural)]
pub struct FaceEntry {
    /// Persistent track id.
    pub track_id: u32,
    /// Normalized bounding box.
    pub bbox: FaceBBox,
    /// Bit pattern of the detection/tracking confidence (`f64`).
    pub confidence_bits: u64,
}

/// One frame of the timeline.
#[derive(Debug, Clone)]
pub struct FaceTimelineEntry {
    /// Frame index (0-based).
    pub frame_idx: u64,
    /// Timestamp in milliseconds.
    pub timestamp_ms: u64,
    /// Whether full inference ran on this frame.
    pub is_keyframe: bool,
    /// Scene hash for discontinuity detection (0: unknown).
    pub scene_hash: u64,
    /// Faces detected or tracked in this frame.
    pub faces: Vec<FaceEntry>,
}

/// Statistics summary.
#[derive(Debug, Clone)]
pub struct TimelineStats {
    pub frames_processed: u64,
    pub keyframe_count: u64,
    pub gap_frame_count: u64,
    pub faces_detected: u64,
    pub scene_cut_count: u64,
    /// Bit pattern of the throughput multiplier (`f64`).
    pub throughput_multiplier_bits: u64,
    /// Bit pattern of the average inference time in ms (`f64`).
    pub avg_inference_time_ms_bits: u64,
    pub peak_inference_time_ms: u64,
    pub backend: String,
    pub cpu_tier: String,
}

/// Complete face timeline of a video.
#[derive(Debug, Clone)]
pub struct FaceTimeline {
    pub version: String,
    pub video_info: VideoInfo,
    pub engine_config: EngineConfigSnapshot,
    pub entries: Vec<FaceTimelineEntry>,
    pub stats: TimelineStats,
}

/// `(frame index, track id)` of every face of an entry, in order.
pub open spec fn entry_occurrences(e: FaceTimelineEntry) -> Seq<(u64, u32)> {
    e.faces@.map_values(|f: FaceEntry| (e.frame_idx, f.track_id))
}

/// `(frame index, track id)` of every face of the timeline, in order.
pub open spec fn occurrences(entries: Seq<FaceTimelineEntry>) -> Seq<(u64, u32)>
    decreases entries.len(),
{
    if entries.len() == 0 {
        Seq::empty()
    } else {
        occurrences(entries.drop_last()) + entry_occurrences(entries.last())
    }
}

/// The track appears somewhere in the timeline.
pub open spec fn has_track(occ: Seq<(u64, u32)>, id: u32) -> bool {
    exists|k: int| 0 <= k < occ.len() && (#[trigger] occ[k]).1 == id
}

pub open spec fn strictly_increasing(s: Seq<u32>) -> bool {
    forall|i: int, j: int| 0 <= i < j < s.len() ==> s[i] < s[j]
}

pub open spec fn sorted_u32(s: Seq<u32>) -> bool {
    forall|i: int, j: int| 0 <= i <= j < s.len() ==> s[i] <= s[j]
}

/// Calls `slice::sort_unstable`: the result is sorted and holds the same
/// values.
#[verifier::external_body]
fn sort_ids(v: &mut Vec<u32>)
    ensures
        sorted_u32(final(v)@),
        final(v)@.to_multiset() == old(v)@.to_multiset(),
{
    v.sort_unstable();
}

/// `s.push(x)` holds exactly what `s` holds, and `x`.
proof fn lemma_push_contains(s: Seq<u32>, x: u32)
    ensures
        forall|y: u32| s.push(x).contains(y) <==> (s.contains(y) || y == x),
{
    assert forall|y: u32| s.push(x).contains(y) <==> (s.contains(y) || y == x) by {
        if s.push(x).contains(y) {
            let k = choose|k: int| 0 <= k < s.push(x).len() && s.push(x)[k] == y;
            if k < s.len() {
                assert(s[k] == y);
            }
        }
        if s.contains(y) {
            let k = choose|k: int| 0 <= k < s.len() && s[k] == y;
            assert(s.push(x)[k] == y);
        }
        if y == x {
            assert(s.push(x)[s.len() as int] == y);
        }
    }
}

/// Removes the repeats from a sorted vector: the result is strictly
/// increasing and holds the same values.
fn dedup_sorted_ids(v: &mut Vec<u32>)
    requires
        sorted_u32(old(v)@),
    ensures
        strictly_increasing(final(v)@),
        forall|x: u32| final(v)@.contains(x) <==> old(v)@.contains(x),
{
    let mut out: Vec<u32> = Vec::new();
    let mut i: usize = 0;
    while i < v.len()
        invariant
            i <= v@.len(),
            sorted_u32(v@),
            strictly_increasing(out@),
            i == 0 ==> out@.len() == 0,
            i > 0 ==> out@.len() > 0 && out@.last() == v@[i - 1],
            forall|x: u32| out@.contains(x) <==> v@.take(i as int).contains(x),
        decreases v@.len() - i,
    {
        let x = v[i];
        let ghost prev = out@;
        proof {
            assert(v@.take(i as int + 1) =~= v@.take(i as int).push(x));
            lemma_push_contains(v@.take(i as int), x);
            lemma_push_contains(prev, x);
        }
        if out.len() == 0 || out[out.len() - 1] != x {
            proof {
                if out@.len() > 0 {
                    assert(v@[i - 1] <= v@[i as int]);
                }
            }
            out.push(x);
            proof {
                assert forall|a: int, b: int| 0 <= a < b < out@.len() implies out@[a] < out@[b] by {
                    if b == out@.len() - 1 && a < b {
                        assert(prev[a] <= prev.last());
                    }
                }
            }
        } else {
            proof {
                assert(out@[out@.len() - 1] == x);
                assert(out@.contains(x));
            }
        }
        proof {
            assert forall|y: u32| out@.contains(y) <==> v@.take(i as int + 1).contains(y) by {
                assert(prev.push(x).contains(y) <==> (prev.contains(y) || y == x));
                assert(v@.take(i as int).push(x).contains(y) <==> (v@.take(i as int).contains(y) || y == x));
                assert(prev.contains(y) <==> v@.take(i as int).contains(y));
            }
        }
        i = i + 1;
    }
    proof {
        assert(v@.take(v@.len() as int) =~= v@);
    }
    *v = out;
}

/// Index of the first face of the given track in a frame.
pub open spec fn is_first_face_of(faces: Seq<FaceEntry>, id: u32, k: int) -> bool {
    &&& 0 <= k < faces.len()
    &&& faces[k].track_id == id
    &&& forall|j: int| 0 <= j < k ==> faces[j].track_id != id
}

/// The first face of the given track in a frame, if any.
pub open spec fn first_face_of(faces: Seq<FaceEntry>, id: u32) -> Option<FaceEntry> {
    if exists|k: int| is_first_face_of(faces, id, k) {
        Some(faces[choose|k: int| is_first_face_of(faces, id, k)])
    } else {
        None
    }
}

/// Frames where the track appears, with its first face in each.
pub open spec fn track_frames_spec(entries: Seq<FaceTimelineEntry>, id: u32) -> Seq<(u64, FaceEntry)>
    decreases entries.len(),
{
    if entries.len() == 0 {
        Seq::empty()
    } else {
        let rest = track_frames_spec(entries.drop_last(), id);
        match first_face_of(entries.last().faces@, id) {
            Some(f) => rest.push((entries.last().frame_idx, f)),
            None => rest,
        }
    }
}

/// Indices of keyframes, in order.
pub open spec fn keyframes_spec(entries: Seq<FaceTimelineEntry>) -> Seq<u64>
    decreases entries.len(),
{
    if entries.len() == 0 {
        Seq::empty()
    } else {
        let rest = keyframes_spec(entries.drop_last());
        if entries.last().is_keyframe { rest.push(entries.last().frame_idx) } else { rest }
    }
}

/// Entry `k` starts a new scene: its hash and its predecessor's are both
/// known and differ.
pub open spec fn is_scene_cut_at(entries: Seq<FaceTimelineEntry>, k: int) -> bool {
    &&& 1 <= k < entries.len()
    &&& entries[k].scene_hash != 0
    &&& entries[k - 1].scene_hash != 0
    &&& entries[k].scene_hash != entries[k - 1].scene_hash
}

/// Frame indices of scene cuts, in order.
pub open spec fn scene_cuts_spec(entries: Seq<FaceTimelineEntry>) -> Seq<u64>
    decreases entries.len(),
{
    if entries.len() == 0 {
        Seq::empty()
    } else {
        let rest = scene_cuts_spec(entries.drop_last());
        if is_scene_cut_at(entries, entries.len() - 1) { rest.push(entries.last().frame_idx) } else { rest }
    }
}

/// First and last frame of every track, folded over the occurrences in
/// order: the first occurrence sets both, later ones move the end.
pub open spec fn lifespans_spec(occ: Seq<(u64, u32)>) -> Map<u32, (u64, u64)>
    decreases occ.len(),
{
    if occ.len() == 0 {
        Map::empty()
    } else {
        let m = lifespans_spec(occ.drop_last());
        let (f, id) = occ.last();
        if m.contains_key(id) { m.insert(id, (m[id].0, f)) } else { m.insert(id, (f, f)) }
    }
}

/// `a` is the first occurrence of the track.
pub open spec fn is_first_occurrence(occ: Seq<(u64, u32)>, id: u32, a: int) -> bool {
    &&& 0 <= a < occ.len()
    &&& occ[a].1 == id
    &&& forall|k: int| 0 <= k < a ==> occ[k].1 != id
}

/// `b` is the last occurrence of the track.
pub open spec fn is_last_occurrence(occ: Seq<(u64, u32)>, id: u32, b: int) -> bool {
    &&& 0 <= b < occ.len()
    &&& occ[b].1 == id
    &&& forall|k: int| b < k < occ.len() ==> occ[k].1 != id
}

/// A track has a lifespan exactly when it appears, and its lifespan runs
/// from the frame of its first face to the frame of its last face.
pub proof fn lifespan_is_first_to_last_frame(occ: Seq<(u64, u32)>, id: u32)
    ensures
        lifespans_spec(occ).contains_key(id) <==> has_track(occ, id),
        lifespans_spec(occ).contains_key(id) ==> exists|a: int, b: int|
            #[trigger] is_first_occurrence(occ, id, a) && #[trigger] is_last_occurrence(occ, id, b)
            && lifespans_spec(occ)[id] == (occ[a].0, occ[b].0),
    decreases occ.len(),
{
    if occ.len() > 0 {
        let prev = occ.drop_last();
        lifespan_is_first_to_last_frame(prev, id);
        let n = occ.len() - 1;
        let (f, last_id) = occ.last();
        if last_id == id {
            assert(is_last_occurrence(occ, id, n));
            if lifespans_spec(prev).contains_key(id) {
                let (a, b) = choose|a: int, b: int|
                    #[trigger] is_first_occurrence(prev, id, a) && #[trigger] is_last_occurrence(prev, id, b)
                    && lifespans_spec(prev)[id] == (prev[a].0, prev[b].0);
                assert forall|k: int| 0 <= k < a implies occ[k].1 != id by {
                    assert(prev[k] == occ[k]);
                }
                assert(prev[a] == occ[a]);
                assert(is_first_occurrence(occ, id, a));
                assert(lifespans_spec(occ)[id] == (occ[a].0, occ[n].0));
            } else {
                assert forall|k: int| 0 <= k < n implies occ[k].1 != id by {
                    if occ[k].1 == id {
                        assert(prev[k].1 == id);
                        assert(has_track(prev, id));
                    }
                }
                assert(is_first_occurrence(occ, id, n));
                assert(lifespans_spec(occ)[id] == (occ[n].0, occ[n].0));
            }
            assert(has_track(occ, id)) by {
                assert(occ[n].1 == id);
            }
        } else {
            assert(lifespans_spec(occ).contains_key(id) == lifespans_spec(prev).contains_key(id));
            if has_track(occ, id) {
                let k = choose|k: int| 0 <= k < occ.len() && (#[trigger] occ[k]).1 == id;
                assert(prev[k].1 == id);
                assert(has_track(prev, id));
            }
            if has_track(prev, id) {
                let k = choose|k: int| 0 <= k < prev.len() && (#[trigger] prev[k]).1 == id;
                assert(occ[k].1 == id);
            }
            if lifespans_spec(prev).contains_key(id) {
                let (a, b) = choose|a: int, b: int|
                    #[trigger] is_first_occurrence(prev, id, a) && #[trigger] is_last_occurrence(prev, id, b)
                    && lifespans_spec(prev)[id] == (prev[a].0, prev[b].0);
                assert forall|k: int| 0 <= k < a implies occ[k].1 != id by {
                    assert(prev[k] == occ[k]);
                }
                assert forall|k: int| b < k < occ.len() implies occ[k].1 != id by {
                    if k < n {
                        assert(prev[k] == occ[k]);
                    }
                }
                assert(prev[a] == occ[a]);
                assert(prev[b] == occ[b]);
                assert(is_first_occurrence(occ, id, a));
                assert(is_last_occurrence(occ, id, b));
                assert(lifespans_spec(occ)[id] == lifespans_spec(prev)[id]);
            }
        }
    }
}

impl FaceTimeline {
    /// An empty timeline: schema version 1.0, no entries, zero statistics
    /// with a throughput multiplier of 1.0.
    pub fn new(video_info: VideoInfo, engine_config: EngineConfigSnapshot) -> (r: Self)
        ensures
            r.version@ == TIMELINE_VERSION@,
            r.video_info == video_info,
            r.engine_config == engine_config,
            r.entries@.len() == 0,
            r.stats.frames_processed == 0 && r.stats.keyframe_count == 0 && r.stats.gap_frame_count == 0,
            r.stats.faces_detected == 0 && r.stats.scene_cut_count == 0 && r.stats.peak_inference_time_ms == 0,
            r.stats.throughput_multiplier_bits == F64_1_0_BITS,
            r.stats.avg_inference_time_ms_bits == 0,
            r.stats.backend@.len() == 0 && r.stats.cpu_tier@.len() == 0,
    {
        FaceTimeline {
            version: String::from_str(TIMELINE_VERSION),
            video_info,
            engine_config,
            entries: Vec::new(),
            stats: TimelineStats {
                frames_processed: 0,
                keyframe_count: 0,
                gap_frame_count: 0,
                faces_detected: 0,
                scene_cut_count: 0,
                throughput_multiplier_bits: F64_1_0_BITS,
                avg_inference_time_ms_bits: 0,
                peak_inference_time_ms: 0,
                backend: String::new(),
                cpu_tier: String::new(),
            },
        }
    }

    /// Appends a frame.
    pub fn add_frame(&mut self, entry: FaceTimelineEntry)
        ensures
            final(self).entries@ == old(self).entries@.push(entry),
            final(self).version == old(self).version,
            final(self).video_info == old(self).video_info,
            final(self).engine_config == old(self).engine_config,
            final(self).stats == old(self).stats,
    {
        self.entries.push(entry);
    }

    /// Replaces the statistics with the final ones.
    pub fn finalize(&mut self, stats: TimelineStats)
        ensures
            final(self).stats == stats,
            final(self).entries@ == old(self).entries@,
            final(self).version == old(self).version,
            final(self).video_info == old(self).video_info,
            final(self).engine_config == old(self).engine_config,
    {
        self.stats = stats;
    }

    /// `(frame index, track id)` of every face, in timeline order.
    fn occurrence_list(&self) -> (r: Vec<(u64, u32)>)
        ensures
            r@ == occurrences(self.entries@),
    {
        let mut out: Vec<(u64, u32)> = Vec::new();
        let mut i: usize = 0;
        while i < self.entries.len()
            invariant
                i <= self.entries@.len(),
                out@ == occurrences(self.entries@.take(i as int)),
            decreases self.entries@.len() - i,
        {
            let e = &self.entries[i];
            let mut j: usize = 0;
            while j < e.faces.len()
                invariant
                    j <= e.faces@.len(),
                    *e == self.entries@[i as int],
                    out@ == occurrences(self.entries@.take(i as int)) + entry_occurrences(*e).take(j as int),
                decreases e.faces@.len() - j,
            {
                out.push((e.frame_idx, e.faces[j].track_id));
                assert(entry_occurrences(*e).take(j as int + 1) =~= entry_occurrences(*e).take(j as int).push((e.frame_idx, e.faces@[j as int].track_id)));
                j = j + 1;
            }
            assert(entry_occurrences(*e).take(j as int) =~= entry_occurrences(*e));
            assert(self.entries@.take(i as int + 1).drop_last() =~= self.entries@.take(i as int));
            i = i + 1;
        }
        assert(self.entries@.take(i as int) =~= self.entries@);
        out
    }

    /// Distinct track ids of the timeline, ascending.
    pub fn track_ids(&self) -> (r: Vec<u32>)
        ensures
            strictly_increasing(r@),
            forall|id: u32| r@.contains(id) <==> has_track(occurrences(self.entries@), id),
    {
        let occ = self.occurrence_list();
        let mut ids: Vec<u32> = Vec::new();
        let mut k: usize = 0;
        while k < occ.len()
            invariant
                k <= occ@.len(),
                ids@.len() == k,
                forall|m: int| 0 <= m < k ==> #[trigger] ids@[m] == occ@[m].1,
            decreases occ@.len() - k,
        {
            ids.push(occ[k].1);
            k = k + 1;
        }
        let ghost before = ids@;
        assert forall|id: u32| before.contains(id) <==> has_track(occ@, id) by {
            if before.contains(id) {
                let m = choose|m: int| 0 <= m < before.len() && before[m] == id;
                assert(occ@[m].1 == id);
            }
            if has_track(occ@, id) {
                let m = choose|m: int| 0 <= m < occ@.len() && (#[trigger] occ@[m]).1 == id;
                assert(before[m] == id);
            }
        }
        sort_ids(&mut ids);
        proof {
            assert forall|id: u32| ids@.contains(id) <==> before.contains(id) by {
                broadcast use vstd::seq_lib::group_to_multiset_ensures;
                assert(ids@.to_multiset().count(id) == before.to_multiset().count(id));
            }
        }
        let ghost sorted_ids = ids@;
        dedup_sorted_ids(&mut ids);
        assert forall|id: u32| ids@.contains(id) <==> has_track(occurrences(self.entries@), id) by {
            assert(ids@.contains(id) <==> sorted_ids.contains(id));
            assert(sorted_ids.contains(id) <==> before.contains(id));
            assert(before.contains(id) <==> has_track(occ@, id));
        }
        ids
    }

    /// The frames where the track appears, each with the first face of the
    /// track in that frame.
    pub fn track_frames(&self, track_id: u32) -> (r: Vec<(u64, FaceEntry)>)
        ensures
            r@ == track_frames_spec(self.entries@, track_id),
    {
        let mut out: Vec<(u64, FaceEntry)> = Vec::new();
        let mut i: usize = 0;
        while i < self.entries.len()
            invariant
                i <= self.entries@.len(),
                out@ == track_frames_spec(self.entries@.take(i as int), track_id),
            decreases self.entries@.len() - i,
        {
            let e = &self.entries[i];
            let mut j: usize = 0;
            let mut found: Option<FaceEntry> = None;
            while j < e.faces.len()
                invariant_except_break
                    found is None,
                invariant
                    i < self.entries@.len(),
                    j <= e.faces@.len(),
                    *e == self.entries@[i as int],
                    forall|m: int| 0 <= m < j ==> e.faces@[m].track_id != track_id,
                ensures
                    found matches Some(f) ==> is_first_face_of(e.faces@, track_id, j as int) && f == e.faces@[j as int],
                    found is None ==> forall|m: int| 0 <= m < e.faces@.len() ==> e.faces@[m].track_id != track_id,
                decreases e.faces@.len() - j,
            {
                if e.faces[j].track_id == track_id {
                    found = Some(e.faces[j]);
                    break;
                }
                j = j + 1;
            }
            proof {
                if found is Some {
                    let c = choose|k: int| is_first_face_of(e.faces@, track_id, k);
                    assert(is_first_face_of(e.faces@, track_id, c));
                    assert(c == j as int);
                    assert(first_face_of(e.faces@, track_id) == found);
                } else {
                    assert(!exists|k: int| is_first_face_of(e.faces@, track_id, k));
                    assert(first_face_of(e.faces@, track_id) is None);
                }
                assert(self.entries@.take(i as int + 1).drop_last() =~= self.entries@.take(i as int));
            }
            if let Some(f) = found {
                out.push((e.frame_idx, f));
            }
            i = i + 1;
        }
        assert(self.entries@.take(i as int) =~= self.entries@);
        out
    }

    /// Number of faces of every frame, with its index.
    pub fn face_counts(&self) -> (r: Vec<(u64, usize)>)
        ensures
            r@.len() == self.entries@.len(),
            forall|k: int| 0 <= k < r@.len() ==> #[trigger] r@[k] == (self.entries@[k].frame_idx, self.entries@[k].faces@.len() as usize),
    {
        let mut out: Vec<(u64, usize)> = Vec::new();
        let mut i: usize = 0;
        while i < self.entries.len()
            invariant
                i <= self.entries@.len(),
                out@.len() == i,
                forall|k: int| 0 <= k < i ==> #[trigger] out@[k] == (self.entries@[k].frame_idx, self.entries@[k].faces@.len() as usize),
            decreases self.entries@.len() - i,
        {
            out.push((self.entries[i].frame_idx, self.entries[i].faces.len()));
            i = i + 1;
        }
        out
    }

    /// Indices of keyframes, in timeline order.
    pub fn keyframe_indices(&self) -> (r: Vec<u64>)
        ensures
            r@ == keyframes_spec(self.entries@),
    {
        let mut out: Vec<u64> = Vec::new();
        let mut i: usize = 0;
        while i < self.entries.len()
            invariant
                i <= self.entries@.len(),
                out@ == keyframes_spec(self.entries@.take(i as int)),
            decreases self.entries@.len() - i,
        {
            assert(self.entries@.take(i as int + 1).drop_last() =~= self.entries@.take(i as int));
            if self.entries[i].is_keyframe {
                out.push(self.entries[i].frame_idx);
            }
            i = i + 1;
        }
        assert(self.entries@.take(i as int) =~= self.entries@);
        out
    }

    /// Frame indices where the scene hash changes from one known value to a
    /// different known value.
    pub fn scene_cut_indices(&self) -> (r: Vec<u64>)
        ensures
            r@ == scene_cuts_spec(self.entries@),
    {
        let mut cuts: Vec<u64> = Vec::new();
        let mut prev_hash: u64 = 0;
        let mut i: usize = 0;
        while i < self.entries.len()
            invariant
                i <= self.entries@.len(),
                cuts@ == scene_cuts_spec(self.entries@.take(i as int)),
                i == 0 ==> prev_hash == 0,
                i > 0 ==> prev_hash == self.entries@[i - 1].scene_hash,
            decreases self.entries@.len() - i,
        {
            let h = self.entries[i].scene_hash;
            proof {
                let t = self.entries@.take(i as int + 1);
                assert(t.drop_last() =~= self.entries@.take(i as int));
                if i > 0 {
                    assert(t[i as int - 1] == self.entries@[i as int - 1]);
                }
            }
            if h != 0 && h != prev_hash && prev_hash != 0 {
                cuts.push(self.entries[i].frame_idx);
            }
            prev_hash = h;
            i = i + 1;
        }
        assert(self.entries@.take(i as int) =~= self.entries@);
        cuts
    }

    /// First and last frame index of every track.
    pub fn track_lifespans(&self) -> (r: HashMap<u32, (u64, u64)>)
        ensures
            r@ == lifespans_spec(occurrences(self.entries@)),
    {
        let occ = self.occurrence_list();
        let mut spans: HashMap<u32, (u64, u64)> = HashMap::new();
        let mut k: usize = 0;
        while k < occ.len()
            invariant
                k <= occ@.len(),
                spans@ == lifespans_spec(occ@.take(k as int)),
            decreases occ@.len() - k,
        {
            let (f, id) = occ[k];
            proof {
                assert(occ@.take(k as int + 1).drop_last() =~= occ@.take(k as int));
            }
            match spans.get(&id) {
                Some(span) => {
                    let start = span.0;
                    spans.insert(id, (start, f));
                },
                None => {
                    spans.insert(id, (f, f));
                },
            }
            k = k + 1;
        }
        assert(occ@.take(k as int) =~= occ@);
        spans
    }
}

/// Exporter of face timelines.
pub struct TimelineExporter;

impl TimelineExporter {
    /// An empty timeline for a video of the given size, rate and duration,
    /// processed by an engine with the given mode, inference size, decimation
    /// interval and confidence threshold (`f64` values as bit patterns).
    pub fn builder(
        mode: EngineMode,
        inf_width: u32,
        inf_height: u32,
        detect_every_n: u32,
        confidence_threshold_bits: u64,
        video_width: u32,
        video_height: u32,
        fps_bits: u64,
        duration_ms: u64,
    ) -> (r: FaceTimeline)
        ensures
            r.version@ == TIMELINE_VERSION@,
            r.video_info == (VideoInfo { width: video_width, height: video_height, fps_bits, duration_ms }),
            r.engine_config.mode@ == engine_mode_name(mode),
            r.engine_config.inference_size@ == seq![inf_width, inf_height],
            r.engine_config.detect_every_n == detect_every_n,
            r.engine_config.confidence_threshold_bits == confidence_threshold_bits,
            r.entries@.len() == 0,
            r.stats.frames_processed == 0 && r.stats.keyframe_count == 0 && r.stats.gap_frame_count == 0,
            r.stats.faces_detected == 0 && r.stats.scene_cut_count == 0 && r.stats.peak_inference_time_ms == 0,
            r.stats.throughput_multiplier_bits == F64_1_0_BITS,
            r.stats.avg_inference_time_ms_bits == 0,
            r.stats.backend@.len() == 0 && r.stats.cpu_tier@.len() == 0,
    {
        let video_info = VideoInfo { width: video_width, height: video_height, fps_bits, duration_ms };
        let engine_config = EngineConfigSnapshot {
            mode: mode.name(),
            inference_size: [inf_width, inf_height],
            detect_every_n,
            confidence_threshold_bits,
        };
        FaceTimeline::new(video_info, engine_config)
    }
}

} // verus!
