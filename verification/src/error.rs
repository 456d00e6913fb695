//! Errors reported by the media pipeline.

use vstd::prelude::*;

verus! {

/// Media processing error.
#[derive(Debug)]
pub enum MediaError {
    /// The input cannot be rendered as requested.
    InvalidVideo(String),
}

} // verus!
