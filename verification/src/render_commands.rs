//! Filter graphs and FFmpeg argument lists of the single-encode renderers:
//! the full-frame crop, the two-panel split view and the speaker-aware
//! split, including the integer crop geometry they use.

use vstd::prelude::*;
use crate::encoding::{push_arg, push_number_arg, texts, EncodingConfig};
use crate::error::MediaError;
use crate::models::{compute_median_crop, is_median_crop, CropWindow};
use crate::output_format::{
    clamp_crop_arithmetic_fits, clamp_crop_to_frame, clamped_extent, clamped_origin, PORTRAIT_HEIGHT,
    PORTRAIT_WIDTH, SPLIT_PANEL_HEIGHT, SPLIT_PANEL_WIDTH,
};
use crate::text::{decimal, push_decimal, push_signed_decimal, signed_decimal};

verus! {

/// `crop=W:H:X:Y,scale=1080:1920:flags=lanczos,setsar=1`.
pub open spec fn crop_scale_filter_text(c: CropWindow) -> Seq<char> {
    "crop="@ + signed_decimal(c.width as int) + ":"@ + signed_decimal(c.height as int) + ":"@
        + signed_decimal(c.x as int) + ":"@ + signed_decimal(c.y as int) + ",scale="@
        + decimal(PORTRAIT_WIDTH as nat) + ":"@ + decimal(PORTRAIT_HEIGHT as nat)
        + ":flags=lanczos,setsar=1"@
}

/// Crop to the window, then scale to the exact portrait output size with
/// square pixels.
pub fn crop_scale_filter(c: &CropWindow) -> (r: String)
    ensures
        r@ == crop_scale_filter_text(*c),
{
    let mut s = String::from_str("crop=");
    push_signed_decimal(&mut s, c.width as i64);
    s.append(":");
    push_signed_decimal(&mut s, c.height as i64);
    s.append(":");
    push_signed_decimal(&mut s, c.x as i64);
    s.append(":");
    push_signed_decimal(&mut s, c.y as i64);
    s.append(",scale=");
    push_decimal(&mut s, PORTRAIT_WIDTH as u64);
    s.append(":");
    push_decimal(&mut s, PORTRAIT_HEIGHT as u64);
    s.append(":flags=lanczos,setsar=1");
    s
}

/// Arguments of the single encode of a full-frame crop.
pub open spec fn full_render_args_text(segment: Seq<char>, output: Seq<char>, filter: Seq<char>, enc: EncodingConfig) -> Seq<Seq<char>> {
    seq![
        "-y"@, "-hide_banner"@, "-loglevel"@, "error"@, "-i"@, segment, "-vf"@, filter,
        "-c:v"@, enc.codec@, "-preset"@, enc.preset@, "-crf"@, decimal(enc.crf as nat),
        "-pix_fmt"@, "yuv420p"@, "-c:a"@, "aac"@, "-b:a"@, enc.audio_bitrate@,
        "-movflags"@, "+faststart"@, output,
    ]
}

/// FFmpeg arguments for the single encode of a full-frame crop with the
/// video filter `filter`.
pub fn full_render_args(segment: &str, output: &str, filter: &str, encoding: &EncodingConfig) -> (r: Vec<String>)
    ensures
        texts(r@) == full_render_args_text(segment@, output@, filter@, *encoding),
{
    let mut a: Vec<String> = Vec::new();
    push_arg(&mut a, "-y");
    push_arg(&mut a, "-hide_banner");
    push_arg(&mut a, "-loglevel");
    push_arg(&mut a, "error");
    push_arg(&mut a, "-i");
    push_arg(&mut a, segment);
    push_arg(&mut a, "-vf");
    push_arg(&mut a, filter);
    push_arg(&mut a, "-c:v");
    push_arg(&mut a, encoding.codec.as_str());
    push_arg(&mut a, "-preset");
    push_arg(&mut a, encoding.preset.as_str());
    push_arg(&mut a, "-crf");
    push_number_arg(&mut a, encoding.crf as u64);
    push_arg(&mut a, "-pix_fmt");
    push_arg(&mut a, "yuv420p");
    push_arg(&mut a, "-c:a");
    push_arg(&mut a, "aac");
    push_arg(&mut a, "-b:a");
    push_arg(&mut a, encoding.audio_bitrate.as_str());
    push_arg(&mut a, "-movflags");
    push_arg(&mut a, "+faststart");
    push_arg(&mut a, output);
    assert(texts(a@) =~= full_render_args_text(segment@, output@, filter@, *encoding));
    a
}

/// The full-frame render of a segment: the median of the crop windows is
/// the one crop, and the only encode scales it to portrait. Fails when there
/// are no crop windows.
pub fn plan_full_render(
    crop_windows: &Vec<CropWindow>,
    segment: &str,
    output: &str,
    encoding: &EncodingConfig,
) -> (r: Result<Vec<String>, MediaError>)
    ensures
        crop_windows@.len() == 0 <==> r is Err,
        r matches Err(e) ==> e matches MediaError::InvalidVideo(m) && m@ == "No crop windows provided"@,
        r matches Ok(args) ==> exists|c: CropWindow| #[trigger] is_median_crop(crop_windows@, c)
            && texts(args@) == full_render_args_text(segment@, output@, crop_scale_filter_text(c), *encoding),
{
    if crop_windows.len() == 0 {
        return Err(MediaError::InvalidVideo(String::from_str("No crop windows provided")));
    }
    let crop = compute_median_crop(crop_windows);
    let filter = crop_scale_filter(&crop);
    Ok(full_render_args(segment, output, filter.as_str(), encoding))
}

/// One panel of a two-panel filter graph: crop, scale to the panel size,
/// square pixels, yuv420p.
pub open spec fn panel_text(input: Seq<char>, w: int, h: int, x: int, y: int, label: Seq<char>) -> Seq<char> {
    input + "crop="@ + signed_decimal(w) + ":"@ + signed_decimal(h) + ":"@ + signed_decimal(x) + ":"@
        + signed_decimal(y) + ",scale="@ + decimal(SPLIT_PANEL_WIDTH as nat) + ":"@
        + decimal(SPLIT_PANEL_HEIGHT as nat) + ":flags=lanczos,setsar=1,format=yuv420p"@ + label
}

/// The split-view filter graph: split the input, crop a left and a right
/// region (width, height, x, y each), scale both to the panel size and stack
/// them with the left one on top.
pub open spec fn two_panel_filter_text(l: (int, int, int, int), r: (int, int, int, int)) -> Seq<char> {
    "[0:v]split=2[left_in][right_in];"@
        + panel_text("[left_in]"@, l.0, l.1, l.2, l.3, "[top];"@)
        + panel_text("[right_in]"@, r.0, r.1, r.2, r.3, "[bottom];"@)
        + "[top][bottom]vstack=inputs=2[vout]"@
}

fn push_panel(s: &mut String, input: &str, w: i64, h: i64, x: i64, y: i64, label: &str)
    ensures
        final(s)@ == old(s)@ + panel_text(input@, w as int, h as int, x as int, y as int, label@),
{
    s.append(input);
    s.append("crop=");
    push_signed_decimal(s, w);
    s.append(":");
    push_signed_decimal(s, h);
    s.append(":");
    push_signed_decimal(s, x);
    s.append(":");
    push_signed_decimal(s, y);
    s.append(",scale=");
    push_decimal(s, SPLIT_PANEL_WIDTH as u64);
    s.append(":");
    push_decimal(s, SPLIT_PANEL_HEIGHT as u64);
    s.append(":flags=lanczos,setsar=1,format=yuv420p");
    s.append(label);
    assert(s@ =~= old(s)@ + panel_text(input@, w as int, h as int, x as int, y as int, label@));
}

/// Builds the split-view filter graph for a left and a right crop, each
/// given as `(width, height, x, y)`.
pub fn two_panel_filter(l: (i64, i64, i64, i64), r: (i64, i64, i64, i64)) -> (res: String)
    ensures
        res@ == two_panel_filter_text(
            (l.0 as int, l.1 as int, l.2 as int, l.3 as int),
            (r.0 as int, r.1 as int, r.2 as int, r.3 as int),
        ),
{
    let mut s = String::from_str("[0:v]split=2[left_in][right_in];");
    push_panel(&mut s, "[left_in]", l.0, l.1, l.2, l.3, "[top];");
    push_panel(&mut s, "[right_in]", r.0, r.1, r.2, r.3, "[bottom];");
    s.append("[top][bottom]vstack=inputs=2[vout]");
    assert(s@ =~= two_panel_filter_text(
        (l.0 as int, l.1 as int, l.2 as int, l.3 as int),
        (r.0 as int, r.1 as int, r.2 as int, r.3 as int),
    ));
    s
}

/// Arguments of the single encode of a split view whose filter graph ends
/// in the output label `map_label`.
pub open spec fn split_render_args_text(segment: Seq<char>, output: Seq<char>, filter_complex: Seq<char>, map_label: Seq<char>, enc: EncodingConfig) -> Seq<Seq<char>> {
    seq![
        "-y"@, "-hide_banner"@, "-loglevel"@, "error"@, "-i"@, segment,
        "-filter_complex"@, filter_complex, "-map"@, "["@ + map_label + "]"@, "-map"@, "0:a?"@,
        "-c:v"@, enc.codec@, "-preset"@, enc.preset@, "-crf"@, decimal(enc.crf as nat),
        "-pix_fmt"@, "yuv420p"@, "-c:a"@, "aac"@, "-b:a"@, enc.audio_bitrate@,
        "-movflags"@, "+faststart"@, output,
    ]
}

/// FFmpeg arguments for the single encode of a split view.
pub fn split_render_args(segment: &str, output: &str, filter_complex: &str, map_label: &str, encoding: &EncodingConfig) -> (r: Vec<String>)
    ensures
        texts(r@) == split_render_args_text(segment@, output@, filter_complex@, map_label@, *encoding),
{
    let mut a: Vec<String> = Vec::new();
    push_arg(&mut a, "-y");
    push_arg(&mut a, "-hide_banner");
    push_arg(&mut a, "-loglevel");
    push_arg(&mut a, "error");
    push_arg(&mut a, "-i");
    push_arg(&mut a, segment);
    push_arg(&mut a, "-filter_complex");
    push_arg(&mut a, filter_complex);
    push_arg(&mut a, "-map");
    let mut label = String::from_str("[");
    label.append(map_label);
    label.append("]");
    push_arg(&mut a, label.as_str());
    push_arg(&mut a, "-map");
    push_arg(&mut a, "0:a?");
    push_arg(&mut a, "-c:v");
    push_arg(&mut a, encoding.codec.as_str());
    push_arg(&mut a, "-preset");
    push_arg(&mut a, encoding.preset.as_str());
    push_arg(&mut a, "-crf");
    push_number_arg(&mut a, encoding.crf as u64);
    push_arg(&mut a, "-pix_fmt");
    push_arg(&mut a, "yuv420p");
    push_arg(&mut a, "-c:a");
    push_arg(&mut a, "aac");
    push_arg(&mut a, "-b:a");
    push_arg(&mut a, encoding.audio_bitrate.as_str());
    push_arg(&mut a, "-movflags");
    push_arg(&mut a, "+faststart");
    push_arg(&mut a, output);
    assert(texts(a@) =~= split_render_args_text(segment@, output@, filter_complex@, map_label@, *encoding));
    a
}

/// `8 v / 9` rounded to the nearest integer (no ties occur).
pub open spec fn round_eight_ninths(v: int) -> int {
    (16 * v + 9) / 18
}

/// `9 v / 8` rounded to the nearest integer, halves upwards.
pub open spec fn round_nine_eighths(v: int) -> int {
    (18 * v + 8) / 16
}

/// Crop geometry of the split view: each panel is a 9:8 crop fitted into one
/// half of the source, as tall as the half allows and at most the source
/// height.
#[derive(Debug, Clone, Copy, PartialEq, Eq, Structural)]
pub struct SplitGeometry {
    /// Half the source width (rounded down).
    pub half_width: u32,
    /// Width of each panel crop.
    pub crop_width: u32,
    /// Height of each panel crop.
    pub crop_height: u32,
    /// Source height left over below a top-aligned crop.
    pub vertical_margin: u32,
}

pub open spec fn split_geometry_spec(source_width: u32, source_height: u32) -> SplitGeometry {
    let half = source_width as int / 2;
    let ideal = round_eight_ninths(half);
    let ch = if ideal <= source_height { ideal } else { source_height as int };
    let cw = if round_nine_eighths(ch) <= half { round_nine_eighths(ch) } else { half };
    SplitGeometry {
        half_width: half as u32,
        crop_width: cw as u32,
        crop_height: ch as u32,
        vertical_margin: (source_height - ch) as u32,
    }
}

/// Computes the split-view crop geometry for a source of the given size:
/// crop height `round(half_width * 8 / 9)` capped at the source height, crop
/// width `round(crop_height * 9 / 8)` capped at the half width, so that each
/// crop fits inside its half of the frame.
pub fn split_crop_geometry(source_width: u32, source_height: u32) -> (r: SplitGeometry)
    ensures
        r == split_geometry_spec(source_width, source_height),
        r.crop_height <= source_height,
        r.crop_width <= r.half_width,
        r.half_width == source_width / 2,
        r.vertical_margin + r.crop_height == source_height,
        // The crop keeps the 9:8 panel shape to within rounding.
        8 * r.crop_width <= 9 * r.crop_height + 4,
        9 * r.crop_height <= 8 * r.crop_width + 4,
{
    let half = source_width / 2;
    let ideal = (16 * (half as u64) + 9) / 18;
    let ch: u64 = if ideal <= source_height as u64 { ideal } else { source_height as u64 };
    let raw_w = (18 * ch + 8) / 16;
    let cw: u64 = if raw_w <= half as u64 { raw_w } else { half as u64 };
    SplitGeometry {
        half_width: half,
        crop_width: cw as u32,
        crop_height: ch as u32,
        vertical_margin: source_height - (ch as u32),
    }
}

/// A crop of `(width, height)` narrowed to the 9:8 panel shape by trimming
/// width (when wider than 9:8) or height (otherwise), centred:
/// `(width, height, x_offset, y_offset)`.
pub open spec fn panel_fit_spec(w: int, h: int) -> (int, int, int, int) {
    if 8 * w > 9 * h {
        let nw = if round_nine_eighths(h) <= i32::MAX { round_nine_eighths(h) } else { i32::MAX as int };
        (nw, h, div_trunc(w - nw, 2), 0)
    } else {
        let nh = round_eight_ninths(w);
        (w, nh, 0, div_trunc(h - nh, 2))
    }
}

/// Integer division truncating towards zero.
pub open spec fn div_trunc(a: int, b: int) -> int {
    if a >= 0 { a / b } else { -((-a) / b) }
}

/// Narrows a `(width, height)` crop of at least 2x2 to the 9:8 panel shape,
/// centred within the crop; returns `(width, height, x_offset, y_offset)`.
pub fn fit_panel_aspect(w: i32, h: i32) -> (r: (i32, i32, i32, i32))
    requires
        w >= 2,
        h >= 2,
    ensures
        (r.0 as int, r.1 as int, r.2 as int, r.3 as int) == panel_fit_spec(w as int, h as int),
        // The adjusted crop lies within the given one.
        0 <= r.2 && r.2 + r.0 <= w,
        0 <= r.3 && r.3 + r.1 <= h,
{
    let wl = w as i64;
    let hl = h as i64;
    if 8 * wl > 9 * hl {
        let raw = (18 * hl + 8) / 16;
        let nw = if raw <= i32::MAX as i64 { raw } else { i32::MAX as i64 };
        let xadj = (wl - nw) / 2;
        (nw as i32, h, xadj as i32, 0)
    } else {
        let nh = (16 * wl + 9) / 18;
        let yadj = (hl - nh) / 2;
        (w, nh as i32, 0, yadj as i32)
    }
}

/// Left and right crops of the speaker split as clamped to the frame and
/// then narrowed to 9:8, each `(width, height, x, y)`.
pub open spec fn speaker_panel_spec(req: (i32, i32, i32, i32), fw: u32, fh: u32) -> (int, int, int, int) {
    let cx = clamped_origin(req.0 as int, req.2 as int, fw as i32 as int);
    let cy = clamped_origin(req.1 as int, req.3 as int, fh as i32 as int);
    let cw = clamped_extent(req.2 as int, fw as i32 as int);
    let ch = clamped_extent(req.3 as int, fh as i32 as int);
    let fit = panel_fit_spec(cw, ch);
    (fit.0, fit.1, cx + fit.2, cy + fit.3)
}

/// The speaker-aware split filter graph for requested left and right crops
/// `(x, y, width, height)` in a `width x height` frame: each crop is clamped
/// into the frame with even dimensions, narrowed to the 9:8 panel shape
/// around its centre, then cropped, scaled and stacked.
pub fn speaker_split_filter(
    width: u32,
    height: u32,
    left: (i32, i32, i32, i32),
    right: (i32, i32, i32, i32),
) -> (r: String)
    requires
        clamp_crop_arithmetic_fits(left.2, left.3, width, height),
        clamp_crop_arithmetic_fits(right.2, right.3, width, height),
    ensures
        r@ == two_panel_filter_text(speaker_panel_spec(left, width, height), speaker_panel_spec(right, width, height)),
{
    let (lx, ly, lw, lh) = clamp_crop_to_frame(left.0, left.1, left.2, left.3, width, height);
    let (rx, ry, rw, rh) = clamp_crop_to_frame(right.0, right.1, right.2, right.3, width, height);
    let (flw, flh, lxa, lya) = fit_panel_aspect(lw, lh);
    let (frw, frh, rxa, rya) = fit_panel_aspect(rw, rh);
    two_panel_filter(
        (flw as i64, flh as i64, lx as i64 + lxa as i64, ly as i64 + lya as i64),
        (frw as i64, frh as i64, rx as i64 + rxa as i64, ry as i64 + rya as i64),
    )
}

} // verus!
