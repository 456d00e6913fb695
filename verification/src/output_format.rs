//! Output format constants for portrait rendering, the scale filters built
//! from them, and crop clamping for codec-compatible crop windows.
//!
//! libx264 needs even crop dimensions, and every crop must stay inside the
//! source frame.

use vstd::prelude::*;
use crate::text::{decimal, push_decimal};

verus! {

/// Target width for portrait (9:16) output.
pub const PORTRAIT_WIDTH: u32 = 1080;

/// Target height for portrait (9:16) output.
pub const PORTRAIT_HEIGHT: u32 = 1920;

/// Panel width for split-view (full portrait width).
pub const SPLIT_PANEL_WIDTH: u32 = 1080;

/// Panel height for split-view (half of portrait height).
pub const SPLIT_PANEL_HEIGHT: u32 = 960;

/// The output is 9:16 portrait; a split view stacks two 9:8 panels of the
/// full output width that together fill the output height exactly.
pub proof fn split_panels_fill_portrait()
    ensures
        PORTRAIT_WIDTH * 16 == PORTRAIT_HEIGHT * 9,
        SPLIT_PANEL_WIDTH == PORTRAIT_WIDTH,
        SPLIT_PANEL_HEIGHT * 2 == PORTRAIT_HEIGHT,
        SPLIT_PANEL_WIDTH * 8 == SPLIT_PANEL_HEIGHT * 9,
{
}

/// The text of the portrait scale filter.
pub open spec fn portrait_scale_filter_text() -> Seq<char> {
    "scale="@ + decimal(PORTRAIT_WIDTH as nat) + ":"@ + decimal(PORTRAIT_HEIGHT as nat)
        + ":flags=lanczos,setsar=1"@
}

/// The text of the split-panel scale filter.
pub open spec fn split_panel_scale_filter_text() -> Seq<char> {
    "scale="@ + decimal(SPLIT_PANEL_WIDTH as nat) + ":"@ + decimal(SPLIT_PANEL_HEIGHT as nat)
        + ":flags=lanczos:force_original_aspect_ratio=decrease,pad="@
        + decimal(SPLIT_PANEL_WIDTH as nat) + ":"@ + decimal(SPLIT_PANEL_HEIGHT as nat)
        + ":(ow-iw)/2:(oh-ih)/2,setsar=1"@
}

/// FFmpeg filter that scales to exactly 1080x1920 with Lanczos and square pixels:
/// `scale=1080:1920:flags=lanczos,setsar=1`.
pub fn portrait_scale_filter() -> (r: String)
    ensures
        r@ == portrait_scale_filter_text(),
{
    let mut s = String::from_str("scale=");
    push_decimal(&mut s, PORTRAIT_WIDTH as u64);
    s.append(":");
    push_decimal(&mut s, PORTRAIT_HEIGHT as u64);
    s.append(":flags=lanczos,setsar=1");
    s
}

/// FFmpeg filter for a 1080x960 split panel: fit inside the panel without
/// stretching, then pad to the exact panel size with the content centred.
pub fn split_panel_scale_filter() -> (r: String)
    ensures
        r@ == split_panel_scale_filter_text(),
{
    let mut s = String::from_str("scale=");
    push_decimal(&mut s, SPLIT_PANEL_WIDTH as u64);
    s.append(":");
    push_decimal(&mut s, SPLIT_PANEL_HEIGHT as u64);
    s.append(":flags=lanczos:force_original_aspect_ratio=decrease,pad=");
    push_decimal(&mut s, SPLIT_PANEL_WIDTH as u64);
    s.append(":");
    push_decimal(&mut s, SPLIT_PANEL_HEIGHT as u64);
    s.append(":(ow-iw)/2:(oh-ih)/2,setsar=1");
    s
}

/// `v` rounded down to the nearest even number (`%` is Euclidean in
/// specifications, so `v % 2` is 0 or 1 for negative `v` too).
pub open spec fn even_floor(v: int) -> int {
    v - v % 2
}

pub open spec fn min_int(a: int, b: int) -> int {
    if a <= b { a } else { b }
}

pub open spec fn max_int(a: int, b: int) -> int {
    if a >= b { a } else { b }
}

/// Rounds a crop dimension down to the nearest even number (libx264 needs
/// even dimensions): `1081 -> 1080`, `1 -> 0`, `-3 -> -4`.
pub fn make_even(value: i32) -> (r: i32)
    ensures
        r == even_floor(value as int),
        r % 2 == 0,
        r <= value,
        value - r <= 1,
{
    let half = value / 2;
    if value - half * 2 == 0 {
        value
    } else {
        value - 1
    }
}

/// Clamped crop width (or height): the request capped at the frame
/// dimension, rounded down to even, and at least 2.
pub open spec fn clamped_extent(request: int, frame: int) -> int {
    max_int(even_floor(min_int(request, frame)), 2)
}

/// Clamped crop origin: non-negative, and so that the clamped extent ends
/// inside the frame wherever the frame is at least 2 wide.
pub open spec fn clamped_origin(pos: int, request: int, frame: int) -> int {
    max_int(min_int(max_int(pos, 0), frame - clamped_extent(request, frame)), 0)
}

/// The frame dimensions are taken as `i32`, as the crop arithmetic does; the
/// subtraction of the clamped extent from the frame dimension must not
/// overflow (it cannot when the frame dimension fits in `i32`).
pub open spec fn clamp_crop_arithmetic_fits(width: i32, height: i32, frame_width: u32, frame_height: u32) -> bool {
    let fw = frame_width as i32 as int;
    let fh = frame_height as i32 as int;
    &&& i32::MIN <= fw - clamped_extent(width as int, fw)
    &&& i32::MIN <= fh - clamped_extent(height as int, fh)
}

/// Clamps a crop rectangle so that it stays inside the frame with even
/// dimensions of at least 2. Returns `(x, y, width, height)`.
pub fn clamp_crop_to_frame(
    x: i32,
    y: i32,
    width: i32,
    height: i32,
    frame_width: u32,
    frame_height: u32,
) -> (r: (i32, i32, i32, i32))
    requires
        clamp_crop_arithmetic_fits(width, height, frame_width, frame_height),
    ensures
        r.0 == clamped_origin(x as int, width as int, frame_width as i32 as int),
        r.1 == clamped_origin(y as int, height as int, frame_height as i32 as int),
        r.2 == clamped_extent(width as int, frame_width as i32 as int),
        r.3 == clamped_extent(height as int, frame_height as i32 as int),
        r.0 >= 0 && r.1 >= 0,
        r.2 >= 2 && r.2 % 2 == 0,
        r.3 >= 2 && r.3 % 2 == 0,
        // In any frame at least 2x2 (that fits in i32) the crop ends fully
        // inside the frame, whatever was requested.
        (2 <= frame_width <= i32::MAX) ==> r.0 + r.2 <= frame_width,
        (2 <= frame_height <= i32::MAX) ==> r.1 + r.3 <= frame_height,
{
    let fw = frame_width as i32;
    let fh = frame_height as i32;
    let ew = make_even(if width < fw { width } else { fw });
    let eh = make_even(if height < fh { height } else { fh });
    let w = if ew > 2 { ew } else { 2 };
    let h = if eh > 2 { eh } else { 2 };
    let x0 = if x > 0 { x } else { 0 };
    let y0 = if y > 0 { y } else { 0 };
    let x_lim = fw - w;
    let y_lim = fh - h;
    let x1 = if x0 < x_lim { x0 } else { x_lim };
    let y1 = if y0 < y_lim { y0 } else { y_lim };
    (
        if x1 > 0 { x1 } else { 0 },
        if y1 > 0 { y1 } else { 0 },
        w,
        h,
    )
}

} // verus!
