//! Encoder settings handed to FFmpeg and helpers for building argument lists
//! with exact contents.

use vstd::prelude::*;
use crate::text::{decimal, push_decimal};

verus! {

/// Encoder settings for one output.
#[derive(Debug, Clone)]
pub struct EncodingConfig {
    /// Video codec, such as `libx264`.
    pub codec: String,
    /// Encoder preset, such as `veryfast`.
    pub preset: String,
    /// Constant rate factor.
    pub crf: u8,
    /// Audio bitrate, such as `128k`.
    pub audio_bitrate: String,
}

/// The texts of a list of strings.
pub open spec fn texts(v: Seq<String>) -> Seq<Seq<char>> {
    v.map_values(|s: String| s@)
}

/// Appends one argument.
pub fn push_arg(args: &mut Vec<String>, a: &str)
    ensures
        texts(final(args)@) == texts(old(args)@).push(a@),
{
    args.push(String::from_str(a));
    assert(texts(args@) =~= texts(old(args)@).push(a@));
}

/// Appends the decimal text of a number as one argument.
pub fn push_number_arg(args: &mut Vec<String>, n: u64)
    ensures
        texts(final(args)@) == texts(old(args)@).push(decimal(n as nat)),
{
    let mut s = String::new();
    push_decimal(&mut s, n);
    assert(s@ =~= decimal(n as nat));
    args.push(s);
    assert(texts(args@) =~= texts(old(args)@).push(decimal(n as nat)));
}

} // verus!
