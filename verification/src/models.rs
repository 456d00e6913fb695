//! Data shared by the cropping pipeline: aspect ratios, camera modes and
//! crop windows, with the median and grouping computations over crop
//! windows.
//!
//! A crop window's timestamp is a real number; it is carried as the bit
//! pattern of its `f64` value and never computed on here.

use vstd::prelude::*;
use vstd::multiset::Multiset;
use crate::output_format::{PORTRAIT_HEIGHT, PORTRAIT_WIDTH};
use crate::text::{decimal, push_decimal};

verus! {

/// Target aspect ratio `width:height`.
#[derive(Debug, Clone, Copy, PartialEq, Eq, Hash, Structural)]
pub struct AspectRatio {
    /// Width component.
    pub width: u32,
    /// Height component.
    pub height: u32,
}

impl AspectRatio {
    /// Portrait 9:16 (TikTok, Instagram Reels).
    pub fn portrait() -> (r: Self)
        ensures
            r == (AspectRatio { width: 9, height: 16 }),
    {
        AspectRatio { width: 9, height: 16 }
    }

    /// Square 1:1.
    pub fn square() -> (r: Self)
        ensures
            r == (AspectRatio { width: 1, height: 1 }),
    {
        AspectRatio { width: 1, height: 1 }
    }

    /// Landscape 16:9.
    pub fn landscape() -> (r: Self)
        ensures
            r == (AspectRatio { width: 16, height: 9 }),
    {
        AspectRatio { width: 16, height: 9 }
    }

    /// A new aspect ratio.
    pub fn new(width: u32, height: u32) -> (r: Self)
        ensures
            r.width == width,
            r.height == height,
    {
        AspectRatio { width, height }
    }

    /// The ratio as text, `width:height`.
    pub fn to_text(&self) -> (r: String)
        ensures
            r@ == decimal(self.width as nat) + ":"@ + decimal(self.height as nat),
    {
        let mut s = String::new();
        push_decimal(&mut s, self.width as u64);
        s.append(":");
        push_decimal(&mut s, self.height as u64);
        assert(s@ =~= decimal(self.width as nat) + ":"@ + decimal(self.height as nat));
        s
    }
}

/// Camera mode classification.
#[derive(Debug, Clone, Copy, PartialEq, Eq, Structural)]
pub enum CameraMode {
    /// Static camera: no movement.
    Static,
    /// Tracking camera: following the subject.
    Tracking,
    /// Zooming camera: changing scale.
    Zoom,
}

/// Crop window for FFmpeg rendering.
#[derive(Debug, Clone, Copy, PartialEq, Eq, Structural)]
pub struct CropWindow {
    /// Bit pattern of the `f64` timestamp in seconds.
    pub time_bits: u64,
    /// Left edge.
    pub x: i32,
    /// Top edge.
    pub y: i32,
    /// Crop width.
    pub width: i32,
    /// Crop height.
    pub height: i32,
}

impl CropWindow {
    /// A new crop window.
    pub fn new(time_bits: u64, x: i32, y: i32, width: i32, height: i32) -> (r: Self)
        ensures
            r == (CropWindow { time_bits, x, y, width, height }),
    {
        CropWindow { time_bits, x, y, width, height }
    }
}

/// `s` is in non-decreasing order.
pub open spec fn sorted(s: Seq<i32>) -> bool {
    forall|i: int, j: int| 0 <= i <= j < s.len() ==> s[i] <= s[j]
}

/// `v` is the `k`-th smallest of `values` (counting from zero): the entry at
/// index `k` once the values are sorted.
pub open spec fn is_kth_smallest(values: Seq<i32>, k: int, v: i32) -> bool {
    exists|s: Seq<i32>| #[trigger] sorted(s) && s.to_multiset() == values.to_multiset() && 0 <= k < s.len() && s[k] == v
}

/// Calls `slice::sort` (a stable ascending sort) on the vector: the result
/// is sorted and holds the same values.
#[verifier::external_body]
fn sort_values(v: &mut Vec<i32>)
    ensures
        sorted(final(v)@),
        final(v)@.to_multiset() == old(v)@.to_multiset(),
{
    v.sort();
}

pub open spec fn xs(w: Seq<CropWindow>) -> Seq<i32> { w.map_values(|c: CropWindow| c.x) }
pub open spec fn ys(w: Seq<CropWindow>) -> Seq<i32> { w.map_values(|c: CropWindow| c.y) }
pub open spec fn widths(w: Seq<CropWindow>) -> Seq<i32> { w.map_values(|c: CropWindow| c.width) }
pub open spec fn heights(w: Seq<CropWindow>) -> Seq<i32> { w.map_values(|c: CropWindow| c.height) }

/// Which coordinate of a crop window a column holds.
enum Column {
    X,
    Y,
    Width,
    Height,
}

spec fn column_of(w: Seq<CropWindow>, c: Column) -> Seq<i32> {
    match c {
        Column::X => xs(w),
        Column::Y => ys(w),
        Column::Width => widths(w),
        Column::Height => heights(w),
    }
}

/// The `k`-th smallest value of one coordinate over the windows.
fn kth_of_column(windows: &Vec<CropWindow>, c: Column, k: usize) -> (r: i32)
    requires
        k < windows@.len(),
    ensures
        is_kth_smallest(column_of(windows@, c), k as int, r),
{
    let mut vals: Vec<i32> = Vec::new();
    let mut i: usize = 0;
    while i < windows.len()
        invariant
            i <= windows@.len(),
            vals@ =~= column_of(windows@, c).take(i as int),
        decreases windows@.len() - i,
    {
        let w = windows[i];
        let v = match c {
            Column::X => w.x,
            Column::Y => w.y,
            Column::Width => w.width,
            Column::Height => w.height,
        };
        vals.push(v);
        i = i + 1;
    }
    assert(column_of(windows@, c).take(windows@.len() as int) =~= column_of(windows@, c));
    let ghost before = vals@;
    sort_values(&mut vals);
    proof {
        broadcast use vstd::seq_lib::group_to_multiset_ensures;
        assert(vals@.len() == vals@.to_multiset().len());
        assert(before.len() == before.to_multiset().len());
    }
    let r = vals[k];
    assert(sorted(vals@) && vals@.to_multiset() == column_of(windows@, c).to_multiset() && 0 <= k < vals@.len() && vals@[k as int] == r);
    r
}

/// `c` is the coordinate-wise median of the (non-empty) windows, stamped
/// with the time of the window at index `len / 2`.
pub open spec fn is_median_crop(windows: Seq<CropWindow>, c: CropWindow) -> bool {
    let mid = windows.len() / 2;
    &&& c.time_bits == windows[mid as int].time_bits
    &&& is_kth_smallest(xs(windows), mid as int, c.x)
    &&& is_kth_smallest(ys(windows), mid as int, c.y)
    &&& is_kth_smallest(widths(windows), mid as int, c.width)
    &&& is_kth_smallest(heights(windows), mid as int, c.height)
}

/// Median crop over the windows, coordinate by coordinate: each of x, y,
/// width and height is the value at index `len / 2` of that coordinate's
/// sorted values, and the timestamp is that of the window at index
/// `len / 2`. With no windows, the full portrait frame at time zero.
pub fn compute_median_crop(windows: &Vec<CropWindow>) -> (r: CropWindow)
    ensures
        windows@.len() == 0 ==> r == (CropWindow { time_bits: 0, x: 0, y: 0, width: PORTRAIT_WIDTH as i32, height: PORTRAIT_HEIGHT as i32 }),
        windows@.len() > 0 ==> is_median_crop(windows@, r),
{
    if windows.len() == 0 {
        return CropWindow::new(0, 0, 0, PORTRAIT_WIDTH as i32, PORTRAIT_HEIGHT as i32);
    }
    let mid = windows.len() / 2;
    let x = kth_of_column(windows, Column::X, mid);
    let y = kth_of_column(windows, Column::Y, mid);
    let w = kth_of_column(windows, Column::Width, mid);
    let h = kth_of_column(windows, Column::Height, mid);
    CropWindow::new(windows[mid].time_bits, x, y, w, h)
}

/// Integer division truncating towards zero.
pub open spec fn div_toward_zero(a: int, b: int) -> int {
    if a >= 0 { a / b } else { -((-a) / b) }
}

pub open spec fn abs_int(a: int) -> int {
    if a >= 0 { a } else { -a }
}

/// Two crops differ significantly when x, y or width moves by more than a
/// tenth of the first crop's width (truncated to an integer).
pub open spec fn crops_differ_spec(a: CropWindow, b: CropWindow) -> bool {
    let t = div_toward_zero(a.width as int, 10);
    abs_int(a.x - b.x) > t || abs_int(a.y - b.y) > t || abs_int(a.width - b.width) > t
}

/// Whether two crops differ by more than a tenth of the first crop's width
/// in x, y or width.
pub fn crops_differ(a: &CropWindow, b: &CropWindow) -> (r: bool)
    ensures
        r == crops_differ_spec(*a, *b),
{
    let t = (a.width / 10) as i64;
    let dx = (a.x as i64) - (b.x as i64);
    let dy = (a.y as i64) - (b.y as i64);
    let dw = (a.width as i64) - (b.width as i64);
    let adx = if dx >= 0 { dx } else { -dx };
    let ady = if dy >= 0 { dy } else { -dy };
    let adw = if dw >= 0 { dw } else { -dw };
    adx > t || ady > t || adw > t
}

/// A run of crop windows rendered with one crop: windows `first..next`,
/// with the crop of window `first`. Times are read from the windows at
/// `first` and `next` (or past the last window) by the caller.
#[derive(Debug, Clone, Copy, PartialEq, Eq, Structural)]
pub struct CropSegment {
    /// Index of the first window of the run.
    pub first: usize,
    /// Index just past the last window of the run.
    pub next: usize,
    /// The crop used for the whole run.
    pub crop: CropWindow,
}

/// `segs` splits `windows` into consecutive runs: each run starts a new crop
/// at a window that differs significantly from the previous run's crop, and
/// the windows inside a run do not differ significantly from its crop.
pub open spec fn is_segmentation(windows: Seq<CropWindow>, segs: Seq<CropSegment>) -> bool {
    &&& segs.len() >= 1
    &&& segs[0].first == 0
    &&& segs.last().next == windows.len()
    &&& forall|k: int| 0 <= k < segs.len() ==> #[trigger] segs[k].first < segs[k].next
    &&& forall|k: int| 0 <= k < segs.len() - 1 ==> #[trigger] segs[k + 1].first == segs[k].next
    &&& forall|k: int| 0 <= k < segs.len() ==> #[trigger] segs[k].crop == windows[segs[k].first as int]
    &&& forall|k: int, j: int| 0 <= k < segs.len() && segs[k].first < j < segs[k].next
        ==> !crops_differ_spec(#[trigger] segs[k].crop, #[trigger] windows[j])
    &&& forall|k: int| 0 <= k < segs.len() - 1 ==> crops_differ_spec(#[trigger] segs[k].crop, windows[segs[k].next as int])
}

/// Groups consecutive crop windows with similar crops into runs.
pub fn group_segments(windows: &Vec<CropWindow>) -> (r: Vec<CropSegment>)
    ensures
        windows@.len() == 0 ==> r@.len() == 0,
        windows@.len() > 0 ==> is_segmentation(windows@, r@),
{
    let n = windows.len();
    let mut segs: Vec<CropSegment> = Vec::new();
    if n == 0 {
        return segs;
    }
    let mut current_first: usize = 0;
    let mut current_crop = windows[0];
    let mut i: usize = 1;
    while i < n
        invariant
            n == windows@.len(),
            0 <= current_first < i <= n,
            current_crop == windows@[current_first as int],
            forall|j: int| current_first < j < i ==> !crops_differ_spec(current_crop, #[trigger] windows@[j]),
            segs@.len() == 0 ==> current_first == 0,
            segs@.len() > 0 ==> segs@[0].first == 0 && segs@.last().next == current_first,
            forall|k: int| 0 <= k < segs@.len() ==> #[trigger] segs@[k].first < segs@[k].next,
            forall|k: int| 0 <= k < segs@.len() - 1 ==> #[trigger] segs@[k + 1].first == segs@[k].next,
            forall|k: int| 0 <= k < segs@.len() ==> #[trigger] segs@[k].crop == windows@[segs@[k].first as int],
            forall|k: int, j: int| 0 <= k < segs@.len() && segs@[k].first < j < segs@[k].next
                ==> !crops_differ_spec(#[trigger] segs@[k].crop, #[trigger] windows@[j]),
            forall|k: int| 0 <= k < segs@.len() ==> crops_differ_spec(#[trigger] segs@[k].crop, windows@[segs@[k].next as int]),
        decreases n - i,
    {
        let w = windows[i];
        if crops_differ(&current_crop, &w) {
            segs.push(CropSegment { first: current_first, next: i, crop: current_crop });
            current_first = i;
            current_crop = w;
        }
        i = i + 1;
    }
    segs.push(CropSegment { first: current_first, next: n, crop: current_crop });
    segs
}

} // verus!
