//! Splitting a sequence of camera keyframes into runs between large camera
//! moves. Whether the move into a keyframe is large is decided by the caller
//! (it compares real-valued positions); the runs follow from those flags.

use vstd::prelude::*;

verus! {

/// `runs` covers `0..n` with consecutive non-empty index ranges (a single
/// `(0, 0)` when `n` is 0), each new run starting exactly at a flagged
/// keyframe and no flagged keyframe falling inside a run.
pub open spec fn runs_between_breaks(breaks: Seq<bool>, runs: Seq<(usize, usize)>) -> bool {
    let n = breaks.len();
    &&& runs.len() >= 1
    &&& runs[0].0 == 0
    &&& runs.last().1 == n
    &&& forall|k: int| 0 <= k < runs.len() - 1 ==> (#[trigger] runs[k]).1 == runs[k + 1].0
    &&& forall|k: int| 0 <= k < runs.len() ==> (#[trigger] runs[k]).0 <= runs[k].1
    &&& n > 0 ==> forall|k: int| 0 <= k < runs.len() ==> (#[trigger] runs[k]).0 < runs[k].1
    &&& forall|k: int| 1 <= k < runs.len() ==> breaks[(#[trigger] runs[k]).0 as int]
    &&& forall|k: int, j: int| #![trigger runs[k], breaks[j]] 0 <= k < runs.len() && runs[k].0 < j < runs[k].1 ==> !breaks[j]
}

/// Runs of keyframes between large camera moves, as `(start, end)` index
/// ranges: `breaks[i]` says that the move from keyframe `i - 1` to keyframe
/// `i` is large (`breaks[0]` is not read).
pub fn segment_runs(breaks: &Vec<bool>) -> (r: Vec<(usize, usize)>)
    ensures
        runs_between_breaks(breaks@, r@),
{
    let n = breaks.len();
    let mut out: Vec<(usize, usize)> = Vec::new();
    if n == 0 {
        out.push((0, 0));
        return out;
    }
    let mut start: usize = 0;
    let mut i: usize = 1;
    while i < n
        invariant
            n == breaks@.len(),
            1 <= i <= n,
            start < i,
            out@.len() == 0 <==> start == 0,
            start > 0 ==> breaks@[start as int],
            out@.len() > 0 ==> out@[0].0 == 0 && out@.last().1 == start,
            forall|k: int| 0 <= k < out@.len() - 1 ==> (#[trigger] out@[k]).1 == out@[k + 1].0,
            forall|k: int| 0 <= k < out@.len() ==> (#[trigger] out@[k]).0 < out@[k].1,
            forall|k: int| 1 <= k < out@.len() ==> breaks@[(#[trigger] out@[k]).0 as int],
            forall|k: int, j: int| #![trigger out@[k], breaks@[j]] 0 <= k < out@.len() && out@[k].0 < j < out@[k].1 ==> !breaks@[j],
            forall|j: int| start < j < i ==> !breaks@[j],
        decreases n - i,
    {
        if breaks[i] {
            out.push((start, i));
            start = i;
        }
        i = i + 1;
    }
    out.push((start, n));
    out
}

} // verus!
