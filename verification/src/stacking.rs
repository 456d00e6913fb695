//! Vertical stacking of two pre-cropped halves into one portrait stream.

use vstd::prelude::*;
use crate::encoding::{push_arg, push_number_arg, texts, EncodingConfig};
use crate::text::{decimal, push_decimal};

verus! {

/// Default width of each stacked panel.
pub const DEFAULT_PANEL_WIDTH: u32 = 1080;

/// Default height of each stacked panel (half of a 1920-pixel portrait).
pub const DEFAULT_PANEL_HEIGHT: u32 = 960;

/// Panel dimensions for stacking.
#[derive(Debug, Clone, Copy, PartialEq, Eq, Structural)]
pub struct StackingConfig {
    /// Width of each panel after normalization.
    pub panel_width: u32,
    /// Height of each panel after normalization.
    pub panel_height: u32,
}

impl Default for StackingConfig {
    fn default() -> (r: Self)
        ensures
            r.panel_width == DEFAULT_PANEL_WIDTH,
            r.panel_height == DEFAULT_PANEL_HEIGHT,
    {
        StackingConfig { panel_width: DEFAULT_PANEL_WIDTH, panel_height: DEFAULT_PANEL_HEIGHT }
    }
}

/// Per-input normalization: reset timestamps, fit into the panel, pad to the
/// exact panel size centred, square pixels, yuv420p.
pub open spec fn panel_chain_text(input: Seq<char>, w: u32, h: u32, label: Seq<char>) -> Seq<char> {
    input + "setpts=PTS-STARTPTS,scale="@ + decimal(w as nat) + ":"@ + decimal(h as nat)
        + ":force_original_aspect_ratio=decrease,pad="@ + decimal(w as nat) + ":"@ + decimal(h as nat)
        + ":(ow-iw)/2:(oh-ih)/2,setsar=1,format=yuv420p"@ + label
}

/// The whole stacking filter graph.
pub open spec fn vstack_filter_text(w: u32, h: u32) -> Seq<char> {
    panel_chain_text("[0:v]"@, w, h, "[top];"@) + panel_chain_text("[1:v]"@, w, h, "[bottom];"@)
        + "[top][bottom]vstack=inputs=2[vout]"@
}

/// Appends one panel's normalization chain.
fn push_panel_chain(s: &mut String, input: &str, w: u32, h: u32, label: &str)
    ensures
        final(s)@ == old(s)@ + panel_chain_text(input@, w, h, label@),
{
    s.append(input);
    s.append("setpts=PTS-STARTPTS,scale=");
    push_decimal(s, w as u64);
    s.append(":");
    push_decimal(s, h as u64);
    s.append(":force_original_aspect_ratio=decrease,pad=");
    push_decimal(s, w as u64);
    s.append(":");
    push_decimal(s, h as u64);
    s.append(":(ow-iw)/2:(oh-ih)/2,setsar=1,format=yuv420p");
    s.append(label);
    assert(s@ =~= old(s)@ + panel_chain_text(input@, w, h, label@));
}

/// The FFmpeg argument list for stacking `top` over `bottom` into `output`.
pub open spec fn stack_args_text(
    top: Seq<char>,
    bottom: Seq<char>,
    output: Seq<char>,
    enc: EncodingConfig,
    filter: Seq<char>,
    crf: u8,
) -> Seq<Seq<char>> {
    seq![
        "-y"@, "-i"@, top, "-i"@, bottom, "-filter_complex"@, filter,
        "-map"@, "[vout]"@, "-map"@, "0:a?"@,
        "-c:v"@, enc.codec@, "-preset"@, enc.preset@, "-crf"@, decimal(crf as nat),
        "-c:a"@, "aac"@, "-b:a"@, enc.audio_bitrate@, "-pix_fmt"@, "yuv420p"@,
        "-movflags"@, "+faststart"@, "-shortest"@, "-map_metadata"@, "-1"@, output,
    ]
}

/// CRF used for the stacking encode: two above the configured one, capped
/// at 255.
pub open spec fn stack_crf(enc: EncodingConfig) -> u8 {
    if enc.crf as int + 2 > 255 { 255 } else { (enc.crf + 2) as u8 }
}

impl StackingConfig {
    /// Custom panel dimensions.
    pub fn new(panel_width: u32, panel_height: u32) -> (r: Self)
        ensures
            r.panel_width == panel_width,
            r.panel_height == panel_height,
    {
        StackingConfig { panel_width, panel_height }
    }

    /// The filter graph normalizing both inputs to the panel size and
    /// stacking them: `[0:v]...[top];[1:v]...[bottom];[top][bottom]vstack=inputs=2[vout]`.
    pub fn build_vstack_filter(&self) -> (r: String)
        ensures
            r@ == vstack_filter_text(self.panel_width, self.panel_height),
    {
        let mut s = String::new();
        push_panel_chain(&mut s, "[0:v]", self.panel_width, self.panel_height, "[top];");
        push_panel_chain(&mut s, "[1:v]", self.panel_width, self.panel_height, "[bottom];");
        s.append("[top][bottom]vstack=inputs=2[vout]");
        assert(s@ =~= vstack_filter_text(self.panel_width, self.panel_height));
        s
    }

    /// Arguments of the FFmpeg invocation that stacks two halves with this
    /// configuration: only the stacked video and the first input's audio
    /// are mapped, at a CRF two above the configured one (saturating).
    pub fn stack_command_args(&self, top: &str, bottom: &str, output: &str, encoding: &EncodingConfig) -> (r: Vec<String>)
        ensures
            texts(r@) == stack_args_text(
                top@,
                bottom@,
                output@,
                *encoding,
                vstack_filter_text(self.panel_width, self.panel_height),
                stack_crf(*encoding),
            ),
    {
        let crf = encoding.crf.saturating_add(2);
        let filter = self.build_vstack_filter();
        build_ffmpeg_args(top, bottom, output, encoding, filter.as_str(), crf)
    }
}

/// FFmpeg arguments for stacking with the given filter graph and CRF.
pub fn build_ffmpeg_args(
    top: &str,
    bottom: &str,
    output: &str,
    encoding: &EncodingConfig,
    filter: &str,
    crf: u8,
) -> (r: Vec<String>)
    ensures
        texts(r@) == stack_args_text(top@, bottom@, output@, *encoding, filter@, crf),
{
    let mut a: Vec<String> = Vec::new();
    push_arg(&mut a, "-y");
    push_arg(&mut a, "-i");
    push_arg(&mut a, top);
    push_arg(&mut a, "-i");
    push_arg(&mut a, bottom);
    push_arg(&mut a, "-filter_complex");
    push_arg(&mut a, filter);
    push_arg(&mut a, "-map");
    push_arg(&mut a, "[vout]");
    push_arg(&mut a, "-map");
    push_arg(&mut a, "0:a?");
    push_arg(&mut a, "-c:v");
    push_arg(&mut a, encoding.codec.as_str());
    push_arg(&mut a, "-preset");
    push_arg(&mut a, encoding.preset.as_str());
    push_arg(&mut a, "-crf");
    push_number_arg(&mut a, crf as u64);
    push_arg(&mut a, "-c:a");
    push_arg(&mut a, "aac");
    push_arg(&mut a, "-b:a");
    push_arg(&mut a, encoding.audio_bitrate.as_str());
    push_arg(&mut a, "-pix_fmt");
    push_arg(&mut a, "yuv420p");
    push_arg(&mut a, "-movflags");
    push_arg(&mut a, "+faststart");
    push_arg(&mut a, "-shortest");
    push_arg(&mut a, "-map_metadata");
    push_arg(&mut a, "-1");
    push_arg(&mut a, output);
    assert(texts(a@) =~= stack_args_text(top@, bottom@, output@, *encoding, filter@, crf));
    a
}

} // verus!
