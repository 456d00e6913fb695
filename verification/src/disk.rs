//! Filesystem probes used while discovering model files. What they return
//! depends on the disk at the time of the call, so their contracts promise
//! nothing about the answer; callers state what holds whatever came back.

use vstd::prelude::*;

verus! {

/// Calls `std::path::Path::exists` on `path`. Nothing is claimed about the
/// answer: it reflects the filesystem at the moment of the call.
#[verifier::external_body]
pub(crate) fn path_exists(path: &str) -> bool {
    std::path::Path::new(path).exists()
}

/// Calls `std::path::Path::metadata` on `path` and returns the file length
/// (`Metadata::len`), or the I/O error rendered with `to_string`. Nothing is
/// claimed about either: both reflect the filesystem at the time of the call.
#[verifier::external_body]
pub(crate) fn file_len(path: &str) -> Result<u64, String> {
    match std::path::Path::new(path).metadata() {
        Ok(m) => Ok(m.len()),
        Err(e) => Err(e.to_string()),
    }
}

} // verus!
