//! Track bookkeeping of the multi-face Kalman tracker: which tracks exist,
//! their identities, ages, hits and confirmation, the greedy assignment of
//! detections to tracks by IoU, and the hard reset on scene cuts.
//!
//! The filter state of each track (position, size and velocities) and the
//! IoU values are real numbers computed by the caller; IoU values are handed
//! in as the bit patterns of their `f64` values.

use vstd::prelude::*;
use crate::engine_config::KalmanTrackerConfig;
use crate::float_bits::{f64_bits_at_least, f64_bits_less, f64_ge, f64_order_key};
use crate::layout::TrackerStats;

verus! {

/// Detection `j` may be assigned to track `i`: both exist and their IoU is
/// at least the threshold.
pub open spec fn is_candidate(iou: Seq<Seq<u64>>, threshold: u64, i: int, j: int) -> bool {
    &&& 0 <= i < iou.len()
    &&& 0 <= j < iou[i].len()
    &&& f64_ge(iou[i][j], threshold)
}

/// Pair `a` is preferred to pair `b`: a higher IoU, or the same IoU and an
/// earlier track (then an earlier detection).
pub open spec fn ranks_before(iou: Seq<Seq<u64>>, a: (int, int), b: (int, int)) -> bool {
    let ka = f64_order_key(iou[a.0][a.1]);
    let kb = f64_order_key(iou[b.0][b.1]);
    ka > kb || (ka == kb && (a.0 < b.0 || (a.0 == b.0 && a.1 < b.1)))
}

/// `c` is a candidate whose track and detection are both still unassigned
/// after the assignments `m`.
pub open spec fn is_free(iou: Seq<Seq<u64>>, threshold: u64, m: Seq<(int, int)>, c: (int, int)) -> bool {
    &&& is_candidate(iou, threshold, c.0, c.1)
    &&& forall|k: int| 0 <= k < m.len() ==> (#[trigger] m[k]).0 != c.0 && m[k].1 != c.1
}

/// `c` is the preferred free candidate after the assignments `m`.
pub open spec fn is_best_free(iou: Seq<Seq<u64>>, threshold: u64, m: Seq<(int, int)>, c: (int, int)) -> bool {
    &&& is_free(iou, threshold, m, c)
    &&& forall|d: (int, int)| #[trigger] is_free(iou, threshold, m, d) && d != c ==> ranks_before(iou, c, d)
}

/// The first `k` assignments of the greedy matching: each step assigns the
/// preferred free candidate, until none is left.
pub open spec fn greedy_steps(iou: Seq<Seq<u64>>, threshold: u64, k: nat) -> Seq<(int, int)>
    decreases k,
{
    if k == 0 {
        Seq::empty()
    } else {
        let prev = greedy_steps(iou, threshold, (k - 1) as nat);
        if exists|c: (int, int)| is_best_free(iou, threshold, prev, c) {
            prev.push(choose|c: (int, int)| is_best_free(iou, threshold, prev, c))
        } else {
            prev
        }
    }
}

/// The greedy matching: the assignments once no free candidate is left.
pub open spec fn is_greedy_matching(iou: Seq<Seq<u64>>, threshold: u64, m: Seq<(int, int)>) -> bool {
    &&& exists|k: nat| m == #[trigger] greedy_steps(iou, threshold, k)
    &&& forall|c: (int, int)| !#[trigger] is_free(iou, threshold, m, c)
}

/// The greedy matching assigns each track and each detection at most once,
/// and only pairs whose IoU reaches the threshold.
pub proof fn greedy_assignments_are_one_to_one(iou: Seq<Seq<u64>>, threshold: u64, k: nat)
    ensures
        forall|a: int, b: int| 0 <= a < b < greedy_steps(iou, threshold, k).len() ==>
            (#[trigger] greedy_steps(iou, threshold, k)[a]).0 != (#[trigger] greedy_steps(iou, threshold, k)[b]).0
            && greedy_steps(iou, threshold, k)[a].1 != greedy_steps(iou, threshold, k)[b].1,
        forall|a: int| 0 <= a < greedy_steps(iou, threshold, k).len() ==>
            is_candidate(iou, threshold, (#[trigger] greedy_steps(iou, threshold, k)[a]).0, greedy_steps(iou, threshold, k)[a].1),
    decreases k,
{
    if k > 0 {
        greedy_assignments_are_one_to_one(iou, threshold, (k - 1) as nat);
        let prev = greedy_steps(iou, threshold, (k - 1) as nat);
        if exists|c: (int, int)| is_best_free(iou, threshold, prev, c) {
            let c = choose|c: (int, int)| is_best_free(iou, threshold, prev, c);
            let cur = greedy_steps(iou, threshold, k);
            assert(cur == prev.push(c));
            assert forall|a: int, b: int| 0 <= a < b < cur.len() implies
                (#[trigger] cur[a]).0 != (#[trigger] cur[b]).0 && cur[a].1 != cur[b].1 by {
                if b == prev.len() {
                    assert(cur[a] == prev[a]);
                    assert(prev[a].0 != c.0 && prev[a].1 != c.1);
                } else {
                    assert(cur[a] == prev[a] && cur[b] == prev[b]);
                }
            }
            assert forall|a: int| 0 <= a < cur.len() implies is_candidate(iou, threshold, (#[trigger] cur[a]).0, cur[a].1) by {
                if a < prev.len() {
                    assert(cur[a] == prev[a]);
                }
            }
        }
    }
}

/// Preference is a strict total order on distinct pairs.
proof fn ranks_before_total(iou: Seq<Seq<u64>>, a: (int, int), b: (int, int))
    ensures
        a != b ==> ranks_before(iou, a, b) || ranks_before(iou, b, a),
        !(ranks_before(iou, a, b) && ranks_before(iou, b, a)),
{
}

/// The preferred free candidate is unique.
proof fn best_free_unique(iou: Seq<Seq<u64>>, threshold: u64, m: Seq<(int, int)>, a: (int, int), b: (int, int))
    requires
        is_best_free(iou, threshold, m, a),
        is_best_free(iou, threshold, m, b),
    ensures
        a == b,
{
    if a != b {
        assert(is_free(iou, threshold, m, b));
        assert(ranks_before(iou, a, b));
        assert(is_free(iou, threshold, m, a));
        assert(ranks_before(iou, b, a));
        ranks_before_total(iou, a, b);
    }
}

/// Pair `c` comes before position `(i, j)` in row-major order.
pub open spec fn scanned_before(c: (int, int), i: int, j: int) -> bool {
    c.0 < i || (c.0 == i && c.1 < j)
}

/// Number of `false` entries.
pub open spec fn count_false(s: Seq<bool>) -> nat
    decreases s.len(),
{
    if s.len() == 0 {
        0
    } else {
        count_false(s.drop_last()) + if s.last() { 0nat } else { 1nat }
    }
}

proof fn count_false_update(s: Seq<bool>, i: int)
    requires
        0 <= i < s.len(),
        !s[i],
    ensures
        count_false(s.update(i, true)) + 1 == count_false(s),
    decreases s.len(),
{
    let t = s.update(i, true);
    if i < s.len() - 1 {
        assert(t.drop_last() =~= s.drop_last().update(i, true));
        count_false_update(s.drop_last(), i);
    } else {
        assert(t.drop_last() =~= s.drop_last());
    }
}

/// The preferred free candidate after the assignments in `used_tracks` and
/// `used_dets`, found by a row-major scan.
fn best_free_candidate(
    iou: &Vec<Vec<u64>>,
    detection_count: usize,
    threshold: u64,
    used_tracks: &Vec<bool>,
    used_dets: &Vec<bool>,
    Ghost(m): Ghost<Seq<(int, int)>>,
) -> (r: Option<(usize, usize)>)
    requires
        forall|i: int| 0 <= i < iou@.len() ==> (#[trigger] iou@[i])@.len() == detection_count,
        used_tracks@.len() == iou@.len(),
        used_dets@.len() == detection_count,
        forall|i: int| 0 <= i < iou@.len() ==> (used_tracks@[i] <==> exists|k: int| 0 <= k < m.len() && (#[trigger] m[k]).0 == i),
        forall|j: int| 0 <= j < detection_count ==> (used_dets@[j] <==> exists|k: int| 0 <= k < m.len() && (#[trigger] m[k]).1 == j),
        forall|k: int| 0 <= k < m.len() ==> 0 <= (#[trigger] m[k]).0 < iou@.len() && 0 <= m[k].1 < detection_count,
    ensures
        r matches Some((i, j)) ==> is_best_free(iou_view(iou@), threshold, m, (i as int, j as int)),
        r is None ==> forall|c: (int, int)| !#[trigger] is_free(iou_view(iou@), threshold, m, c),
{
    let ghost v = iou_view(iou@);
    let n = iou.len();
    let mut best: Option<(usize, usize)> = None;
    let mut i: usize = 0;
    while i < n
        invariant
            n == iou@.len(),
            v == iou_view(iou@),
            i <= n,
            forall|t: int| 0 <= t < n ==> (#[trigger] iou@[t])@.len() == detection_count,
            used_tracks@.len() == n,
            used_dets@.len() == detection_count,
            forall|t: int| 0 <= t < n ==> (used_tracks@[t] <==> exists|k: int| 0 <= k < m.len() && (#[trigger] m[k]).0 == t),
            forall|j: int| 0 <= j < detection_count ==> (used_dets@[j] <==> exists|k: int| 0 <= k < m.len() && (#[trigger] m[k]).1 == j),
            best matches Some((bi, bj)) ==> is_free(v, threshold, m, (bi as int, bj as int))
                && scanned_before((bi as int, bj as int), i as int, 0),
            best matches Some((bi, bj)) ==> forall|c: (int, int)| #[trigger] is_free(v, threshold, m, c)
                && scanned_before(c, i as int, 0) && c != (bi as int, bj as int) ==> ranks_before(v, (bi as int, bj as int), c),
            best is None ==> forall|c: (int, int)| #[trigger] is_free(v, threshold, m, c) ==> !scanned_before(c, i as int, 0),
        decreases n - i,
    {
        let row = &iou[i];
        let mut j: usize = 0;
        while j < detection_count
            invariant
                n == iou@.len(),
                v == iou_view(iou@),
                i < n,
                j <= detection_count,
                *row == iou@[i as int],
                row@.len() == detection_count,
                forall|t: int| 0 <= t < n ==> (#[trigger] iou@[t])@.len() == detection_count,
                used_tracks@.len() == n,
                used_dets@.len() == detection_count,
                forall|t: int| 0 <= t < n ==> (used_tracks@[t] <==> exists|k: int| 0 <= k < m.len() && (#[trigger] m[k]).0 == t),
                forall|d: int| 0 <= d < detection_count ==> (used_dets@[d] <==> exists|k: int| 0 <= k < m.len() && (#[trigger] m[k]).1 == d),
                best matches Some((bi, bj)) ==> is_free(v, threshold, m, (bi as int, bj as int))
                    && scanned_before((bi as int, bj as int), i as int, j as int),
                best matches Some((bi, bj)) ==> forall|c: (int, int)| #[trigger] is_free(v, threshold, m, c)
                    && scanned_before(c, i as int, j as int) && c != (bi as int, bj as int) ==> ranks_before(v, (bi as int, bj as int), c),
                best is None ==> forall|c: (int, int)| #[trigger] is_free(v, threshold, m, c) ==> !scanned_before(c, i as int, j as int),
            decreases detection_count - j,
        {
            let x = row[j];
            assert(x == v[i as int][j as int]);
            let free = !used_tracks[i] && !used_dets[j] && f64_bits_at_least(x, threshold);
            proof {
                let c = (i as int, j as int);
                if free {
                    assert forall|k: int| 0 <= k < m.len() implies (#[trigger] m[k]).0 != c.0 && m[k].1 != c.1 by {
                        if m[k].0 == c.0 {
                            assert(used_tracks@[i as int]);
                        }
                        if m[k].1 == c.1 {
                            assert(used_dets@[j as int]);
                        }
                    }
                    assert(is_free(v, threshold, m, c));
                } else {
                    if is_free(v, threshold, m, c) {
                        if used_tracks@[i as int] {
                            let k = choose|k: int| 0 <= k < m.len() && (#[trigger] m[k]).0 == i as int;
                            assert(m[k].0 != c.0);
                        }
                        if used_dets@[j as int] {
                            let k = choose|k: int| 0 <= k < m.len() && (#[trigger] m[k]).1 == j as int;
                            assert(m[k].1 != c.1);
                        }
                    }
                    assert(!is_free(v, threshold, m, c));
                }
            }
            if free {
                match best {
                    None => {
                        best = Some((i, j));
                    },
                    Some((bi, bj)) => {
                        let bx = iou[bi][bj];
                        assert(bx == v[bi as int][bj as int]);
                        if f64_bits_less(bx, x) {
                            best = Some((i, j));
                        }
                    },
                }
            }
            j = j + 1;
        }
        i = i + 1;
    }
    proof {
        assert forall|c: (int, int)| #[trigger] is_free(v, threshold, m, c) implies scanned_before(c, n as int, 0) by {}
        if let Some((bi, bj)) = best {
            assert(is_best_free(v, threshold, m, (bi as int, bj as int)));
        }
    }
    best
}

/// Assignments as pairs of integers.
pub open spec fn pairs_view(m: Seq<(usize, usize)>) -> Seq<(int, int)> {
    m.map_values(|p: (usize, usize)| (p.0 as int, p.1 as int))
}

/// No assignment of `m` uses index `x` on the given side (tracks when
/// `tracks` holds, detections otherwise).
pub open spec fn is_unassigned(m: Seq<(int, int)>, x: int, tracks: bool) -> bool {
    forall|k: int| 0 <= k < m.len() ==> (if tracks { (#[trigger] m[k]).0 } else { m[k].1 }) != x
}

/// `s` lists, in increasing order, exactly the indices below `n` that no
/// assignment of `m` uses on the given side.
pub open spec fn lists_unassigned(s: Seq<usize>, n: int, m: Seq<(int, int)>, tracks: bool) -> bool {
    &&& forall|a: int, b: int| 0 <= a < b < s.len() ==> s[a] < s[b]
    &&& forall|k: int| 0 <= k < s.len() ==> s[k] < n && is_unassigned(m, #[trigger] s[k] as int, tracks)
    &&& forall|x: int| 0 <= x < n && #[trigger] is_unassigned(m, x, tracks) ==> s.contains(x as usize)
}

/// Indices whose flag is not set, in increasing order.
fn unset_indices(flags: &Vec<bool>) -> (r: Vec<usize>)
    ensures
        forall|a: int, b: int| 0 <= a < b < r@.len() ==> r@[a] < r@[b],
        forall|k: int| 0 <= k < r@.len() ==> (#[trigger] r@[k]) < flags@.len() && !flags@[r@[k] as int],
        forall|x: int| 0 <= x < flags@.len() && !flags@[x] ==> r@.contains(x as usize),
        r@.len() <= flags@.len(),
{
    let mut out: Vec<usize> = Vec::new();
    let mut i: usize = 0;
    while i < flags.len()
        invariant
            i <= flags@.len(),
            forall|a: int, b: int| 0 <= a < b < out@.len() ==> out@[a] < out@[b],
            forall|k: int| 0 <= k < out@.len() ==> (#[trigger] out@[k]) < i && !flags@[out@[k] as int],
            forall|x: int| 0 <= x < i && !flags@[x] ==> out@.contains(x as usize),
            out@.len() <= i,
        decreases flags@.len() - i,
    {
        if !flags[i] {
            let ghost before = out@;
            out.push(i);
            assert forall|x: int| 0 <= x < i + 1 && !flags@[x] implies out@.contains(x as usize) by {
                if x == i as int {
                    assert(out@[before.len() as int] == x as usize);
                } else {
                    let k = choose|k: int| 0 <= k < before.len() && before[k] == x as usize;
                    assert(out@[k] == x as usize);
                }
            }
        }
        i = i + 1;
    }
    out
}

fn all_false(n: usize) -> (r: Vec<bool>)
    ensures
        r@.len() == n,
        forall|i: int| 0 <= i < n ==> !r@[i],
        count_false(r@) == n,
{
    let mut v: Vec<bool> = Vec::new();
    let mut i: usize = 0;
    while i < n
        invariant
            i <= n,
            v@.len() == i,
            forall|k: int| 0 <= k < i ==> !v@[k],
            count_false(v@) == i,
        decreases n - i,
    {
        let ghost before = v@;
        v.push(false);
        assert(v@.drop_last() =~= before);
        i = i + 1;
    }
    v
}

/// Greedy assignment of detections to tracks by IoU (one row of IoU values
/// per track, as `f64` bit patterns): repeatedly the pair with the highest
/// IoU at or above the threshold whose track and detection are both still
/// free is assigned, ties going to the earlier track, then the earlier
/// detection. Returns the assignments `(track, detection)` in the order they
/// were made, the unassigned detections and the unassigned tracks.
pub fn match_detections(
    iou: &Vec<Vec<u64>>,
    detection_count: usize,
    iou_threshold_bits: u64,
) -> (r: (Vec<(usize, usize)>, Vec<usize>, Vec<usize>))
    requires
        forall|i: int| 0 <= i < iou@.len() ==> (#[trigger] iou@[i])@.len() == detection_count,
    ensures
        is_greedy_matching(iou_view(iou@), iou_threshold_bits, pairs_view(r.0@)),
        lists_unassigned(r.1@, detection_count as int, pairs_view(r.0@), false),
        lists_unassigned(r.2@, iou@.len() as int, pairs_view(r.0@), true),
{
    let ghost v = iou_view(iou@);
    let n = iou.len();
    let mut used_tracks = all_false(n);
    let mut used_dets = all_false(detection_count);
    let mut matches: Vec<(usize, usize)> = Vec::new();
    loop
        invariant
            n == iou@.len(),
            v == iou_view(iou@),
            forall|i: int| 0 <= i < n ==> (#[trigger] iou@[i])@.len() == detection_count,
            used_tracks@.len() == n,
            used_dets@.len() == detection_count,
            pairs_view(matches@) == greedy_steps(v, iou_threshold_bits, matches@.len()),
            forall|k: int| 0 <= k < matches@.len() ==> (#[trigger] matches@[k]).0 < n && matches@[k].1 < detection_count,
            forall|i: int| 0 <= i < n ==> (used_tracks@[i] <==> exists|k: int| 0 <= k < matches@.len() && (#[trigger] pairs_view(matches@)[k]).0 == i),
            forall|j: int| 0 <= j < detection_count ==> (used_dets@[j] <==> exists|k: int| 0 <= k < matches@.len() && (#[trigger] pairs_view(matches@)[k]).1 == j),
            count_false(used_tracks@) + matches@.len() == n,
        ensures
            pairs_view(matches@) == greedy_steps(v, iou_threshold_bits, matches@.len()),
            forall|c: (int, int)| !#[trigger] is_free(v, iou_threshold_bits, pairs_view(matches@), c),
            forall|i: int| 0 <= i < n ==> (used_tracks@[i] <==> exists|k: int| 0 <= k < matches@.len() && (#[trigger] pairs_view(matches@)[k]).0 == i),
            forall|j: int| 0 <= j < detection_count ==> (used_dets@[j] <==> exists|k: int| 0 <= k < matches@.len() && (#[trigger] pairs_view(matches@)[k]).1 == j),
            used_tracks@.len() == n,
            used_dets@.len() == detection_count,
        decreases count_false(used_tracks@),
    {
        let ghost m = pairs_view(matches@);
        match best_free_candidate(iou, detection_count, iou_threshold_bits, &used_tracks, &used_dets, Ghost(m)) {
            None => {
                break;
            },
            Some((i, j)) => {
                proof {
                    let c = (i as int, j as int);
                    let k = matches@.len();
                    assert(is_best_free(v, iou_threshold_bits, m, c));
                    let chosen = choose|d: (int, int)| is_best_free(v, iou_threshold_bits, m, d);
                    best_free_unique(v, iou_threshold_bits, m, chosen, c);
                    assert(greedy_steps(v, iou_threshold_bits, (k + 1) as nat) == m.push(c));
                    assert(!used_tracks@[i as int]) by {
                        if used_tracks@[i as int] {
                            let q = choose|q: int| 0 <= q < matches@.len() && (#[trigger] pairs_view(matches@)[q]).0 == i as int;
                            assert(m[q].0 != c.0);
                        }
                    }
                    count_false_update(used_tracks@, i as int);
                }
                matches.push((i, j));
                used_tracks.set(i, true);
                used_dets.set(j, true);
                proof {
                    let m2 = pairs_view(matches@);
                    assert(m2 =~= m.push((i as int, j as int)));
                    assert forall|t: int| 0 <= t < n implies (used_tracks@[t] <==> exists|k: int| 0 <= k < matches@.len() && (#[trigger] pairs_view(matches@)[k]).0 == t) by {
                        if t != i as int && used_tracks@[t] {
                            let q = choose|q: int| 0 <= q < m.len() && (#[trigger] m[q]).0 == t;
                            assert(m2[q].0 == t);
                        }
                        if t == i as int {
                            assert(m2[m.len() as int].0 == t);
                        }
                        if exists|k: int| 0 <= k < matches@.len() && (#[trigger] pairs_view(matches@)[k]).0 == t {
                            let q = choose|q: int| 0 <= q < matches@.len() && (#[trigger] pairs_view(matches@)[q]).0 == t;
                            if q < m.len() {
                                assert(m[q].0 == t);
                            }
                        }
                    }
                    assert forall|d: int| 0 <= d < detection_count implies (used_dets@[d] <==> exists|k: int| 0 <= k < matches@.len() && (#[trigger] pairs_view(matches@)[k]).1 == d) by {
                        if d != j as int && used_dets@[d] {
                            let q = choose|q: int| 0 <= q < m.len() && (#[trigger] m[q]).1 == d;
                            assert(m2[q].1 == d);
                        }
                        if d == j as int {
                            assert(m2[m.len() as int].1 == d);
                        }
                        if exists|k: int| 0 <= k < matches@.len() && (#[trigger] pairs_view(matches@)[k]).1 == d {
                            let q = choose|q: int| 0 <= q < matches@.len() && (#[trigger] pairs_view(matches@)[q]).1 == d;
                            if q < m.len() {
                                assert(m[q].1 == d);
                            }
                        }
                    }
                }
            },
        }
    }
    let unassigned_dets = unset_indices(&used_dets);
    let unassigned_tracks = unset_indices(&used_tracks);
    proof {
        let m = pairs_view(matches@);
        assert(is_greedy_matching(v, iou_threshold_bits, m)) by {
            assert(m == greedy_steps(v, iou_threshold_bits, matches@.len()));
        }
        assert forall|k: int| 0 <= k < unassigned_dets@.len() implies
            unassigned_dets@[k] < detection_count && is_unassigned(m, #[trigger] unassigned_dets@[k] as int, false) by {
            let x = unassigned_dets@[k] as int;
            assert forall|q: int| 0 <= q < m.len() implies (if false { (#[trigger] m[q]).0 } else { m[q].1 }) != x by {
                if m[q].1 == x {
                    assert(used_dets@[x]);
                }
            }
        }
        assert forall|x: int| 0 <= x < detection_count && #[trigger] is_unassigned(m, x, false) implies unassigned_dets@.contains(x as usize) by {
            if used_dets@[x] {
                let q = choose|q: int| 0 <= q < matches@.len() && (#[trigger] pairs_view(matches@)[q]).1 == x;
                assert(m[q].1 == x);
            }
        }
        assert forall|k: int| 0 <= k < unassigned_tracks@.len() implies
            unassigned_tracks@[k] < n && is_unassigned(m, #[trigger] unassigned_tracks@[k] as int, true) by {
            let x = unassigned_tracks@[k] as int;
            assert forall|q: int| 0 <= q < m.len() implies (if true { (#[trigger] m[q]).0 } else { m[q].1 }) != x by {
                if m[q].0 == x {
                    assert(used_tracks@[x]);
                }
            }
        }
        assert forall|x: int| 0 <= x < n && #[trigger] is_unassigned(m, x, true) implies unassigned_tracks@.contains(x as usize) by {
            if used_tracks@[x] {
                let q = choose|q: int| 0 <= q < matches@.len() && (#[trigger] pairs_view(matches@)[q]).0 == x;
                assert(m[q].0 == x);
            }
        }
    }
    (matches, unassigned_dets, unassigned_tracks)
}

/// The IoU matrix as sequences of rows.
pub open spec fn iou_view(iou: Seq<Vec<u64>>) -> Seq<Seq<u64>> {
    iou.map_values(|row: Vec<u64>| row@)
}

/// Lifecycle of one face track.
#[derive(Debug, Clone, Copy, PartialEq, Eq, Structural)]
pub struct TrackRecord {
    /// Unique track identifier.
    pub track_id: u32,
    /// Frames the track has been predicted through.
    pub age: u32,
    /// Detections assigned to the track.
    pub hits: u32,
    /// Frames since the last assigned detection.
    pub time_since_update: u32,
    /// Scene hash when the track was created.
    pub scene_hash: u64,
    /// The track has had enough hits to be reported.
    pub confirmed: bool,
}

impl TrackRecord {
    /// A track just created from a detection.
    pub fn new(track_id: u32, scene_hash: u64) -> (r: Self)
        ensures
            r == fresh_record(track_id, scene_hash),
    {
        TrackRecord { track_id, age: 0, hits: 1, time_since_update: 0, scene_hash, confirmed: false }
    }

    /// Whether the track belongs to the given scene.
    pub fn is_valid_for_scene(&self, current_scene_hash: u64) -> (r: bool)
        ensures
            r == (self.scene_hash == current_scene_hash),
    {
        self.scene_hash == current_scene_hash
    }

    /// Whether the track has gone unmatched for longer than `max_age`.
    pub fn should_delete(&self, config: &KalmanTrackerConfig) -> (r: bool)
        ensures
            r == !alive(*self, config.max_age),
    {
        self.time_since_update > config.max_age
    }
}

/// A track just created from a detection.
pub open spec fn fresh_record(track_id: u32, scene_hash: u64) -> TrackRecord {
    TrackRecord { track_id, age: 0, hits: 1, time_since_update: 0, scene_hash, confirmed: false }
}

/// A track created by a keyframe update: its one hit confirms it when
/// `min_hits` asks for no more.
pub open spec fn created_record(track_id: u32, scene_hash: u64, min_hits: u32) -> TrackRecord {
    TrackRecord { confirmed: min_hits <= 1, ..fresh_record(track_id, scene_hash) }
}

/// The tracks after the assignments `m`: each assigned track takes a hit.
pub open spec fn applied(tracks: Seq<TrackRecord>, m: Seq<(int, int)>, min_hits: u32) -> Seq<TrackRecord> {
    Seq::new(tracks.len(), |k: int|
        if exists|p: int| 0 <= p < m.len() && m[p].0 == k { hit(tracks[k], min_hits) } else { tracks[k] })
}

/// A track after one more predicted frame.
pub open spec fn advanced(t: TrackRecord) -> TrackRecord {
    TrackRecord { age: (t.age + 1) as u32, time_since_update: (t.time_since_update + 1) as u32, ..t }
}

/// A track after a detection was assigned to it: one more hit, no frames
/// since the update, confirmed once it has `min_hits` hits.
pub open spec fn hit(t: TrackRecord, min_hits: u32) -> TrackRecord {
    TrackRecord {
        hits: (t.hits + 1) as u32,
        time_since_update: 0,
        confirmed: t.confirmed || t.hits + 1 >= min_hits,
        ..t
    }
}

/// The track is kept: it has not gone unmatched for more than `max_age`
/// frames.
pub open spec fn alive(t: TrackRecord, max_age: u32) -> bool {
    t.time_since_update <= max_age
}

/// The tracks that are kept, in order.
pub open spec fn survivors(s: Seq<TrackRecord>, max_age: u32) -> Seq<TrackRecord>
    decreases s.len(),
{
    if s.len() == 0 {
        Seq::empty()
    } else {
        let rest = survivors(s.drop_last(), max_age);
        if alive(s.last(), max_age) { rest.push(s.last()) } else { rest }
    }
}

/// Identifiers of the confirmed tracks, in order.
pub open spec fn confirmed_ids(s: Seq<TrackRecord>) -> Seq<u32>
    decreases s.len(),
{
    if s.len() == 0 {
        Seq::empty()
    } else {
        let rest = confirmed_ids(s.drop_last());
        if s.last().confirmed { rest.push(s.last().track_id) } else { rest }
    }
}

/// Identifiers strictly increase along the sequence.
pub open spec fn ids_increasing(s: Seq<TrackRecord>) -> bool {
    forall|a: int, b: int| 0 <= a < b < s.len() ==> s[a].track_id < s[b].track_id
}

/// Dropping dead tracks keeps exactly the tracks of `s` updated within the
/// last `max_age` frames, in their order (so increasing identifiers stay
/// increasing).
pub proof fn survivors_facts(s: Seq<TrackRecord>, max_age: u32)
    ensures
        forall|k: int| 0 <= k < survivors(s, max_age).len() ==>
            alive(#[trigger] survivors(s, max_age)[k], max_age) && s.contains(survivors(s, max_age)[k]),
        forall|k: int| 0 <= k < s.len() && alive(#[trigger] s[k], max_age) ==> survivors(s, max_age).contains(s[k]),
        ids_increasing(s) ==> ids_increasing(survivors(s, max_age)),
        survivors(s, max_age).len() <= s.len(),
    decreases s.len(),
{
    if s.len() > 0 {
        let p = s.drop_last();
        survivors_facts(p, max_age);
        let r = survivors(s, max_age);
        let rp = survivors(p, max_age);
        assert forall|k: int| 0 <= k < r.len() implies alive(#[trigger] r[k], max_age) && s.contains(r[k]) by {
            if k < rp.len() {
                assert(r[k] == rp[k]);
                let j = choose|j: int| 0 <= j < p.len() && p[j] == rp[k];
                assert(s[j] == r[k]);
            } else {
                assert(r[k] == s.last());
                assert(s[s.len() - 1] == r[k]);
            }
        }
        assert forall|k: int| 0 <= k < s.len() && alive(#[trigger] s[k], max_age) implies r.contains(s[k]) by {
            if k < s.len() - 1 {
                assert(p[k] == s[k]);
                let j = choose|j: int| 0 <= j < rp.len() && rp[j] == p[k];
                assert(r[j] == s[k]);
            } else {
                assert(r[r.len() - 1] == s[k]);
            }
        }
        if ids_increasing(s) {
            assert(ids_increasing(p));
            assert forall|a: int, b: int| 0 <= a < b < r.len() implies r[a].track_id < r[b].track_id by {
                if b < rp.len() {
                    assert(r[a] == rp[a] && r[b] == rp[b]);
                } else {
                    assert(r[a] == rp[a]);
                    let j = choose|j: int| 0 <= j < p.len() && p[j] == rp[a];
                    assert(s[j] == p[j]);
                    assert(r[b] == s.last());
                }
            }
        }
    }
}

/// The tracks after a whole keyframe update that starts from `before` in
/// scene `current_hash`: [`KalmanTracker::begin_update`] with `scene_hash`,
/// then [`KalmanTracker::finish_update`] with the assignments `m` and the new
/// tracks `created`.
pub open spec fn after_keyframe(
    before: Seq<TrackRecord>,
    current_hash: u64,
    scene_hash: u64,
    m: Seq<(int, int)>,
    min_hits: u32,
    created: Seq<(usize, u32)>,
    max_age: u32,
) -> Seq<TrackRecord> {
    let started = (if scene_hash != 0 && scene_hash != current_hash { Seq::<TrackRecord>::empty() } else { before })
        .map_values(|t: TrackRecord| advanced(t));
    survivors(
        applied(started, m, min_hits) + created.map_values(|p: (usize, u32)| created_record(p.1, scene_hash, min_hits)),
        max_age,
    )
}

/// No identity survives a scene cut: after a keyframe update whose scene
/// hash starts a new scene, every track was created in that scene, whatever
/// the assignments made by the matching.
pub proof fn no_identity_survives_a_scene_cut(
    before: Seq<TrackRecord>,
    current_hash: u64,
    scene_hash: u64,
    m: Seq<(int, int)>,
    min_hits: u32,
    created: Seq<(usize, u32)>,
    max_age: u32,
)
    requires
        scene_hash != 0,
        scene_hash != current_hash,
    ensures
        forall|k: int| 0 <= k < after_keyframe(before, current_hash, scene_hash, m, min_hits, created, max_age).len()
            ==> (#[trigger] after_keyframe(before, current_hash, scene_hash, m, min_hits, created, max_age)[k]).scene_hash == scene_hash,
{
    let started = Seq::<TrackRecord>::empty().map_values(|t: TrackRecord| advanced(t));
    let fresh = created.map_values(|p: (usize, u32)| created_record(p.1, scene_hash, min_hits));
    let all = applied(started, m, min_hits) + fresh;
    assert(all =~= fresh);
    survivors_facts(all, max_age);
    let r = survivors(all, max_age);
    assert(r == after_keyframe(before, current_hash, scene_hash, m, min_hits, created, max_age));
    assert forall|k: int| 0 <= k < r.len() implies (#[trigger] r[k]).scene_hash == scene_hash by {
        let j = choose|j: int| 0 <= j < all.len() && all[j] == r[k];
        assert(fresh[j] == created_record(created[j].1, scene_hash, min_hits));
    }
}

/// Identifiers are never reused: the identifiers a keyframe update hands
/// out (the next identifier and those after it) differ from those of every
/// existing track, and from each other.
pub proof fn new_identifiers_are_fresh(t: KalmanTracker, new_ids: Seq<u32>)
    requires
        t.wf(),
        forall|q: int| 0 <= q < new_ids.len() ==> #[trigger] new_ids[q] == t.spec_next_track_id() + q,
    ensures
        forall|q: int, k: int| 0 <= q < new_ids.len() && 0 <= k < t.spec_tracks().len() ==>
            #[trigger] new_ids[q] != #[trigger] t.spec_tracks()[k].track_id,
        forall|a: int, b: int| 0 <= a < b < new_ids.len() ==> new_ids[a] < new_ids[b],
{
}

/// Multi-face tracker bookkeeping with scene-cut awareness.
pub struct KalmanTracker {
    config: KalmanTrackerConfig,
    tracks: Vec<TrackRecord>,
    next_track_id: u32,
    current_scene_hash: u64,
    total_tracks_created: u64,
    scene_cuts_handled: u64,
}

impl KalmanTracker {
    pub closed spec fn spec_config(&self) -> KalmanTrackerConfig { self.config }
    pub closed spec fn spec_tracks(&self) -> Seq<TrackRecord> { self.tracks@ }
    pub closed spec fn spec_next_track_id(&self) -> u32 { self.next_track_id }
    pub closed spec fn spec_scene_hash(&self) -> u64 { self.current_scene_hash }
    pub closed spec fn spec_total_created(&self) -> u64 { self.total_tracks_created }
    pub closed spec fn spec_scene_cuts(&self) -> u64 { self.scene_cuts_handled }

    /// Track identifiers are unique, increase in creation order and stay
    /// below the next identifier; a confirmed track has at least `min_hits`
    /// hits.
    pub open spec fn wf(&self) -> bool {
        &&& ids_increasing(self.spec_tracks())
        &&& forall|k: int| 0 <= k < self.spec_tracks().len() ==> (#[trigger] self.spec_tracks()[k]).track_id < self.spec_next_track_id()
        &&& forall|k: int| 0 <= k < self.spec_tracks().len() && (#[trigger] self.spec_tracks()[k]).confirmed
            ==> self.spec_tracks()[k].hits >= self.spec_config().min_hits
    }

    /// Every track can be predicted one more frame without its counters
    /// overflowing.
    pub open spec fn can_advance(&self) -> bool {
        forall|k: int| 0 <= k < self.spec_tracks().len() ==>
            (#[trigger] self.spec_tracks()[k]).age < u32::MAX && self.spec_tracks()[k].time_since_update < u32::MAX
    }

    /// A tracker with no tracks.
    pub fn with_config(config: KalmanTrackerConfig) -> (r: Self)
        ensures
            r.wf(),
            r.spec_config() == config,
            r.spec_tracks().len() == 0,
            r.spec_next_track_id() == 0,
            r.spec_scene_hash() == 0,
            r.spec_total_created() == 0,
            r.spec_scene_cuts() == 0,
    {
        KalmanTracker {
            config,
            tracks: Vec::new(),
            next_track_id: 0,
            current_scene_hash: 0,
            total_tracks_created: 0,
            scene_cuts_handled: 0,
        }
    }

    /// A tracker with the default settings and no tracks.
    pub fn new() -> (r: Self)
        ensures
            r.wf(),
            r.spec_config() == KalmanTrackerConfig::default_spec(),
            r.spec_tracks().len() == 0,
            r.spec_next_track_id() == 0,
            r.spec_scene_hash() == 0,
            r.spec_total_created() == 0,
            r.spec_scene_cuts() == 0,
    {
        Self::with_config(KalmanTrackerConfig::default())
    }

    /// Scene cut: every track is dropped, so that no identity carries over
    /// into the new scene. Entering a scene while none is known (hash 0) is
    /// not counted as a cut.
    pub fn handle_scene_cut(&mut self, new_scene_hash: u64)
        requires
            old(self).wf(),
            old(self).spec_scene_cuts() < u64::MAX,
        ensures
            final(self).wf(),
            final(self).spec_tracks().len() == 0,
            final(self).spec_scene_hash() == new_scene_hash,
            final(self).spec_scene_cuts() == old(self).spec_scene_cuts() + if old(self).spec_scene_hash() != 0 { 1int } else { 0int },
            final(self).spec_next_track_id() == old(self).spec_next_track_id(),
            final(self).spec_total_created() == old(self).spec_total_created(),
            final(self).spec_config() == old(self).spec_config(),
    {
        self.tracks.clear();
        if self.current_scene_hash != 0 {
            self.scene_cuts_handled = self.scene_cuts_handled + 1;
        }
        self.current_scene_hash = new_scene_hash;
    }

    /// Every track one frame older and one frame further from its last
    /// update.
    fn advance_all(&mut self)
        requires
            old(self).wf(),
            old(self).can_advance(),
        ensures
            final(self).wf(),
            final(self).spec_tracks() == old(self).spec_tracks().map_values(|t: TrackRecord| advanced(t)),
            final(self).spec_next_track_id() == old(self).spec_next_track_id(),
            final(self).spec_scene_hash() == old(self).spec_scene_hash(),
            final(self).spec_total_created() == old(self).spec_total_created(),
            final(self).spec_scene_cuts() == old(self).spec_scene_cuts(),
            final(self).spec_config() == old(self).spec_config(),
    {
        let ghost before = self.tracks@;
        let mut i: usize = 0;
        while i < self.tracks.len()
            invariant
                i <= self.tracks@.len(),
                self.tracks@.len() == before.len(),
                forall|k: int| 0 <= k < before.len() ==> (#[trigger] before[k]).age < u32::MAX && before[k].time_since_update < u32::MAX,
                forall|k: int| 0 <= k < i ==> #[trigger] self.tracks@[k] == advanced(before[k]),
                forall|k: int| i <= k < before.len() ==> #[trigger] self.tracks@[k] == before[k],
                self.config == old(self).config,
                self.next_track_id == old(self).next_track_id,
                self.current_scene_hash == old(self).current_scene_hash,
                self.total_tracks_created == old(self).total_tracks_created,
                self.scene_cuts_handled == old(self).scene_cuts_handled,
                before == old(self).tracks@,
            decreases before.len() - i,
        {
            let t = self.tracks[i];
            let u = TrackRecord { age: t.age + 1, time_since_update: t.time_since_update + 1, ..t };
            self.tracks.set(i, u);
            i = i + 1;
        }
        assert(self.tracks@ =~= before.map_values(|t: TrackRecord| advanced(t)));
        assert(old(self).wf());
        assert forall|a: int, b: int| 0 <= a < b < self.tracks@.len() implies self.tracks@[a].track_id < self.tracks@[b].track_id by {
            assert(before[a].track_id < before[b].track_id);
        }
    }

    /// Drops the tracks that went unmatched for longer than `max_age`.
    fn remove_dead(&mut self)
        requires
            old(self).wf(),
        ensures
            final(self).wf(),
            final(self).spec_tracks() == survivors(old(self).spec_tracks(), old(self).spec_config().max_age),
            final(self).spec_next_track_id() == old(self).spec_next_track_id(),
            final(self).spec_scene_hash() == old(self).spec_scene_hash(),
            final(self).spec_total_created() == old(self).spec_total_created(),
            final(self).spec_scene_cuts() == old(self).spec_scene_cuts(),
            final(self).spec_config() == old(self).spec_config(),
    {
        let ghost before = self.tracks@;
        let max_age = self.config.max_age;
        let mut kept: Vec<TrackRecord> = Vec::new();
        let mut i: usize = 0;
        while i < self.tracks.len()
            invariant
                i <= self.tracks@.len(),
                self.tracks@ == before,
                max_age == self.config.max_age,
                kept@ == survivors(before.take(i as int), max_age),
            decreases before.len() - i,
        {
            let t = self.tracks[i];
            proof {
                assert(before.take(i as int + 1).drop_last() =~= before.take(i as int));
            }
            if t.time_since_update <= max_age {
                kept.push(t);
            }
            i = i + 1;
        }
        assert(before.take(before.len() as int) =~= before);
        proof {
            survivors_facts(before, max_age);
        }
        self.tracks = kept;
        proof {
            let r = self.tracks@;
            assert forall|k: int| 0 <= k < r.len() implies (#[trigger] r[k]).track_id < self.next_track_id by {
                let j = choose|j: int| 0 <= j < before.len() && before[j] == r[k];
            }
            assert forall|k: int| 0 <= k < r.len() && (#[trigger] r[k]).confirmed implies r[k].hits >= self.config.min_hits by {
                let j = choose|j: int| 0 <= j < before.len() && before[j] == r[k];
            }
        }
    }

    /// Predicts every track one frame (a frame without detection) and drops
    /// the tracks unmatched for longer than `max_age`. Returns the
    /// identifiers of the confirmed tracks.
    pub fn predict(&mut self) -> (r: Vec<u32>)
        requires
            old(self).wf(),
            old(self).can_advance(),
        ensures
            final(self).wf(),
            final(self).spec_tracks() == survivors(
                old(self).spec_tracks().map_values(|t: TrackRecord| advanced(t)),
                old(self).spec_config().max_age,
            ),
            r@ == confirmed_ids(final(self).spec_tracks()),
            final(self).spec_next_track_id() == old(self).spec_next_track_id(),
            final(self).spec_scene_hash() == old(self).spec_scene_hash(),
            final(self).spec_total_created() == old(self).spec_total_created(),
            final(self).spec_scene_cuts() == old(self).spec_scene_cuts(),
            final(self).spec_config() == old(self).spec_config(),
    {
        self.advance_all();
        self.remove_dead();
        self.confirmed_track_ids()
    }

    /// First half of a keyframe update: a non-zero scene hash that differs
    /// from the current one starts a new scene (every track is dropped, and
    /// the change counts as a cut when a scene was known); then every
    /// remaining track is predicted one frame.
    pub fn begin_update(&mut self, scene_hash: u64)
        requires
            old(self).wf(),
            old(self).can_advance(),
            old(self).spec_scene_cuts() < u64::MAX,
        ensures
            final(self).wf(),
            final(self).spec_tracks() == (if scene_hash != 0 && scene_hash != old(self).spec_scene_hash() {
                Seq::<TrackRecord>::empty()
            } else {
                old(self).spec_tracks()
            }).map_values(|t: TrackRecord| advanced(t)),
            final(self).spec_scene_hash() == if scene_hash != 0 && scene_hash != old(self).spec_scene_hash() {
                scene_hash
            } else {
                old(self).spec_scene_hash()
            },
            final(self).spec_scene_cuts() == old(self).spec_scene_cuts()
                + if scene_hash != 0 && scene_hash != old(self).spec_scene_hash() && old(self).spec_scene_hash() != 0 { 1int } else { 0int },
            final(self).spec_next_track_id() == old(self).spec_next_track_id(),
            final(self).spec_total_created() == old(self).spec_total_created(),
            final(self).spec_config() == old(self).spec_config(),
    {
        if scene_hash != 0 && scene_hash != self.current_scene_hash {
            self.handle_scene_cut(scene_hash);
        }
        self.advance_all();
        proof {
            if scene_hash != 0 && scene_hash != old(self).current_scene_hash {
                assert(self.tracks@ =~= Seq::<TrackRecord>::empty().map_values(|t: TrackRecord| advanced(t)));
            }
        }
    }

    /// Second half of a keyframe update, given the assignments `(track,
    /// detection)` of the matching: each assigned track takes a hit, each
    /// unassigned detection (in order) starts a new track with the next
    /// identifier in the current scene, and tracks unmatched for longer than
    /// `max_age` are dropped. Returns the new tracks as `(detection,
    /// identifier)`.
    pub fn finish_update(&mut self, matches: &Vec<(usize, usize)>, detection_count: usize, scene_hash: u64) -> (r: Vec<(usize, u32)>)
        requires
            old(self).wf(),
            forall|q: int| 0 <= q < matches@.len() ==>
                (#[trigger] matches@[q]).0 < old(self).spec_tracks().len() && matches@[q].1 < detection_count,
            forall|a: int, b: int| 0 <= a < b < matches@.len() ==>
                matches@[a].0 != matches@[b].0 && matches@[a].1 != matches@[b].1,
            forall|q: int| 0 <= q < matches@.len() ==> old(self).spec_tracks()[(#[trigger] matches@[q]).0 as int].hits < u32::MAX,
            old(self).spec_next_track_id() + detection_count <= u32::MAX,
            old(self).spec_total_created() + detection_count <= u64::MAX,
        ensures
            final(self).wf(),
            lists_unassigned(r@.map_values(|p: (usize, u32)| p.0), detection_count as int, pairs_view(matches@), false),
            forall|q: int| 0 <= q < r@.len() ==> (#[trigger] r@[q]).1 == old(self).spec_next_track_id() + q,
            final(self).spec_tracks() == survivors(
                applied(old(self).spec_tracks(), pairs_view(matches@), old(self).spec_config().min_hits)
                    + r@.map_values(|p: (usize, u32)| created_record(p.1, scene_hash, old(self).spec_config().min_hits)),
                old(self).spec_config().max_age,
            ),
            final(self).spec_next_track_id() == old(self).spec_next_track_id() + r@.len(),
            final(self).spec_total_created() == old(self).spec_total_created() + r@.len(),
            final(self).spec_scene_hash() == old(self).spec_scene_hash(),
            final(self).spec_scene_cuts() == old(self).spec_scene_cuts(),
            final(self).spec_config() == old(self).spec_config(),
    {
        let ghost before = self.tracks@;
        let ghost m = pairs_view(matches@);
        let min_hits = self.config.min_hits;
        let mut q: usize = 0;
        while q < matches.len()
            invariant
                q <= matches@.len(),
                m == pairs_view(matches@),
                min_hits == self.config.min_hits,
                self.tracks@.len() == before.len(),
                forall|k: int| 0 <= k < matches@.len() ==>
                    (#[trigger] matches@[k]).0 < before.len() && matches@[k].1 < detection_count,
                forall|a: int, b: int| 0 <= a < b < matches@.len() ==>
                    matches@[a].0 != matches@[b].0 && matches@[a].1 != matches@[b].1,
                forall|k: int| 0 <= k < matches@.len() ==> before[(#[trigger] matches@[k]).0 as int].hits < u32::MAX,
                forall|k: int| 0 <= k < before.len() ==> #[trigger] self.tracks@[k] == (
                    if exists|p: int| 0 <= p < q && m[p].0 == k { hit(before[k], min_hits) } else { before[k] }),
                self.config == old(self).config,
                self.next_track_id == old(self).next_track_id,
                self.current_scene_hash == old(self).current_scene_hash,
                self.total_tracks_created == old(self).total_tracks_created,
                self.scene_cuts_handled == old(self).scene_cuts_handled,
                before == old(self).tracks@,
            decreases matches@.len() - q,
        {
            let ti = matches[q].0;
            proof {
                assert(m[q as int].0 == ti as int);
                if exists|p: int| 0 <= p < q && m[p].0 == ti as int {
                    let p = choose|p: int| 0 <= p < q && m[p].0 == ti as int;
                    assert(matches@[p].0 != matches@[q as int].0);
                }
                assert(self.tracks@[ti as int] == before[ti as int]);
            }
            let t = self.tracks[ti];
            let u = TrackRecord {
                hits: t.hits + 1,
                time_since_update: 0,
                confirmed: t.confirmed || t.hits + 1 >= min_hits,
                ..t
            };
            self.tracks.set(ti, u);
            proof {
                assert forall|k: int| 0 <= k < before.len() implies #[trigger] self.tracks@[k] == (
                    if exists|p: int| 0 <= p < q + 1 && m[p].0 == k { hit(before[k], min_hits) } else { before[k] }) by {
                    if k == ti as int {
                        assert(m[q as int].0 == k);
                    } else {
                        if exists|p: int| 0 <= p < q + 1 && m[p].0 == k {
                            let p = choose|p: int| 0 <= p < q + 1 && m[p].0 == k;
                            assert(p != q as int);
                        }
                    }
                }
            }
            q = q + 1;
        }
        let ghost after_hits = self.tracks@;
        proof {
            assert(after_hits =~= applied(before, m, min_hits));
        }

        let mut used_dets = all_false(detection_count);
        let mut q2: usize = 0;
        while q2 < matches.len()
            invariant
                q2 <= matches@.len(),
                m == pairs_view(matches@),
                used_dets@.len() == detection_count,
                forall|k: int| 0 <= k < matches@.len() ==>
                    (#[trigger] matches@[k]).0 < before.len() && matches@[k].1 < detection_count,
                forall|j: int| 0 <= j < detection_count ==> (used_dets@[j] <==> exists|p: int| 0 <= p < q2 && m[p].1 == j),
            decreases matches@.len() - q2,
        {
            let dj = matches[q2].1;
            used_dets.set(dj, true);
            proof {
                assert forall|j: int| 0 <= j < detection_count implies (used_dets@[j] <==> exists|p: int| 0 <= p < q2 + 1 && m[p].1 == j) by {
                    if j == dj as int {
                        assert(m[q2 as int].1 == j);
                    }
                    if exists|p: int| 0 <= p < q2 + 1 && m[p].1 == j {
                        let p = choose|p: int| 0 <= p < q2 + 1 && m[p].1 == j;
                        if p == q2 as int {
                            assert(j == dj as int);
                        }
                    }
                }
            }
            q2 = q2 + 1;
        }
        let unassigned = unset_indices(&used_dets);

        let ghost next0 = self.next_track_id;
        let mut created: Vec<(usize, u32)> = Vec::new();
        let mut k: usize = 0;
        while k < unassigned.len()
            invariant
                k <= unassigned@.len(),
                created@.len() == k,
                forall|p: int| 0 <= p < k ==> (#[trigger] created@[p]).0 == unassigned@[p] && created@[p].1 == next0 + p,
                self.tracks@ == after_hits + created@.map_values(|p: (usize, u32)| created_record(p.1, scene_hash, min_hits)),
                self.next_track_id == next0 + k,
                self.total_tracks_created == old(self).total_tracks_created + k,
                next0 == old(self).next_track_id,
                unassigned@.len() <= detection_count,
                next0 + detection_count <= u32::MAX,
                old(self).total_tracks_created + detection_count <= u64::MAX,
                self.config == old(self).config,
                self.current_scene_hash == old(self).current_scene_hash,
                self.scene_cuts_handled == old(self).scene_cuts_handled,
            decreases unassigned@.len() - k,
        {
            let d = unassigned[k];
            let id = self.next_track_id;
            let ghost prev_created = created@;
            let fresh = TrackRecord::new(id, scene_hash);
            self.tracks.push(TrackRecord { confirmed: min_hits <= 1, ..fresh });
            created.push((d, id));
            self.next_track_id = self.next_track_id + 1;
            self.total_tracks_created = self.total_tracks_created + 1;
            proof {
                assert(created@.map_values(|p: (usize, u32)| created_record(p.1, scene_hash, min_hits))
                    =~= prev_created.map_values(|p: (usize, u32)| created_record(p.1, scene_hash, min_hits)).push(created_record(id, scene_hash, min_hits)));
                assert(self.tracks@ =~= after_hits + created@.map_values(|p: (usize, u32)| created_record(p.1, scene_hash, min_hits)));
            }
            k = k + 1;
        }
        proof {
            // The detections that start tracks are exactly the unassigned ones.
            let dets = created@.map_values(|p: (usize, u32)| p.0);
            assert(dets =~= unassigned@);
            assert forall|x: int| 0 <= x < detection_count && #[trigger] is_unassigned(m, x, false) implies dets.contains(x as usize) by {
                if used_dets@[x] {
                    let p = choose|p: int| 0 <= p < matches@.len() && m[p].1 == x;
                    assert(m[p].1 == x);
                }
            }
            assert forall|p: int| 0 <= p < dets.len() implies dets[p] < detection_count && is_unassigned(m, #[trigger] dets[p] as int, false) by {
                let x = dets[p] as int;
                assert forall|q3: int| 0 <= q3 < m.len() implies (if false { (#[trigger] m[q3]).0 } else { m[q3].1 }) != x by {
                    if m[q3].1 == x {
                        assert(used_dets@[x]);
                    }
                }
            }
            // Well-formedness before dropping dead tracks.
            let all = self.tracks@;
            let n0 = after_hits.len();
            assert forall|a: int, b: int| 0 <= a < b < all.len() implies all[a].track_id < all[b].track_id by {
                if b < n0 {
                    assert(all[a] == hit(before[a], min_hits) || all[a] == before[a]);
                } else if a < n0 {
                    assert(all[a].track_id == before[a].track_id);
                    assert(all[b] == created_record(created@[b - n0].1, scene_hash, min_hits));
                } else {
                    assert(all[a] == created_record(created@[a - n0].1, scene_hash, min_hits));
                    assert(all[b] == created_record(created@[b - n0].1, scene_hash, min_hits));
                }
            }
            assert forall|i: int| 0 <= i < all.len() implies (#[trigger] all[i]).track_id < self.next_track_id by {
                if i >= n0 {
                    assert(all[i] == created_record(created@[i - n0].1, scene_hash, min_hits));
                }
            }
            assert forall|i: int| 0 <= i < all.len() && (#[trigger] all[i]).confirmed implies all[i].hits >= self.config.min_hits by {
                if i >= n0 {
                    assert(all[i] == created_record(created@[i - n0].1, scene_hash, min_hits));
                }
            }
        }
        self.remove_dead();
        created
    }

    /// Identifiers of the confirmed tracks, in order.
    pub fn confirmed_track_ids(&self) -> (r: Vec<u32>)
        ensures
            r@ == confirmed_ids(self.spec_tracks()),
    {
        let mut out: Vec<u32> = Vec::new();
        let mut i: usize = 0;
        while i < self.tracks.len()
            invariant
                i <= self.tracks@.len(),
                out@ == confirmed_ids(self.tracks@.take(i as int)),
            decreases self.tracks@.len() - i,
        {
            proof {
                assert(self.tracks@.take(i as int + 1).drop_last() =~= self.tracks@.take(i as int));
            }
            if self.tracks[i].confirmed {
                out.push(self.tracks[i].track_id);
            }
            i = i + 1;
        }
        assert(self.tracks@.take(self.tracks@.len() as int) =~= self.tracks@);
        out
    }

    /// Number of tracks.
    pub fn active_count(&self) -> (r: usize)
        ensures
            r == self.spec_tracks().len(),
    {
        self.tracks.len()
    }

    /// The tracks, in creation order.
    pub fn records(&self) -> (r: &Vec<TrackRecord>)
        ensures
            r@ == self.spec_tracks(),
    {
        &self.tracks
    }

    /// The track with the given identifier, if any.
    pub fn track_by_id(&self, track_id: u32) -> (r: Option<TrackRecord>)
        ensures
            r matches Some(t) ==> t.track_id == track_id && self.spec_tracks().contains(t),
            r is None ==> forall|k: int| 0 <= k < self.spec_tracks().len() ==> (#[trigger] self.spec_tracks()[k]).track_id != track_id,
    {
        let mut i: usize = 0;
        while i < self.tracks.len()
            invariant
                i <= self.tracks@.len(),
                forall|k: int| 0 <= k < i ==> (#[trigger] self.tracks@[k]).track_id != track_id,
            decreases self.tracks@.len() - i,
        {
            if self.tracks[i].track_id == track_id {
                let t = self.tracks[i];
                assert(self.tracks@[i as int] == t);
                return Some(t);
            }
            i = i + 1;
        }
        None
    }

    /// Drops every track and forgets the scene.
    pub fn hard_reset(&mut self)
        requires
            old(self).wf(),
        ensures
            final(self).wf(),
            final(self).spec_tracks().len() == 0,
            final(self).spec_scene_hash() == 0,
            final(self).spec_next_track_id() == old(self).spec_next_track_id(),
            final(self).spec_total_created() == old(self).spec_total_created(),
            final(self).spec_scene_cuts() == old(self).spec_scene_cuts(),
            final(self).spec_config() == old(self).spec_config(),
    {
        self.tracks.clear();
        self.current_scene_hash = 0;
    }

    /// The identifier the next new track will get.
    pub fn next_track_id(&self) -> (r: u32)
        ensures
            r == self.spec_next_track_id(),
    {
        self.next_track_id
    }

    /// The scene the tracks belong to.
    pub fn current_scene_hash(&self) -> (r: u64)
        ensures
            r == self.spec_scene_hash(),
    {
        self.current_scene_hash
    }

    /// Track counts and totals.
    pub fn stats(&self) -> (r: TrackerStats)
        ensures
            r.active_tracks == self.spec_tracks().len(),
            r.confirmed_tracks == confirmed_ids(self.spec_tracks()).len(),
            r.total_tracks_created == self.spec_total_created(),
            r.scene_cuts_handled == self.spec_scene_cuts(),
    {
        let confirmed = self.confirmed_track_ids();
        TrackerStats {
            active_tracks: self.tracks.len(),
            confirmed_tracks: confirmed.len(),
            total_tracks_created: self.total_tracks_created,
            scene_cuts_handled: self.scene_cuts_handled,
        }
    }
}

} // verus!
