//! The resumability rule: generate only what is not already on disk.
//!
//! An artifact's deterministic path is probed by filesystem metadata
//! alone; a regular file there means the artifact is complete and its
//! generation stage is skipped outright. Content is never validated, so a
//! truncated pre-existing file passes as complete — a documented
//! limitation of existence-only resumability, kept rather than silently
//! strengthened.

use vstd::prelude::*;

verus! {

/// What to do about an artifact whose deterministic path was probed.
#[derive(Debug, Clone, Copy, PartialEq, Eq, Structural)]
pub enum CacheDecision {
    /// The file exists: reuse it, never invoke the generator.
    Reuse,
    /// No file: invoke the generator, exactly once, to write that path.
    Generate,
}

/// The whole caching rule: an existing file is reused and the generator is
/// not invoked; a missing file means one generation call for exactly the
/// probed path.
pub fn ensure_step(exists: bool) -> (d: CacheDecision)
    ensures
        d == (if exists {
            CacheDecision::Reuse
        } else {
            CacheDecision::Generate
        }),
{
    if exists {
        CacheDecision::Reuse
    } else {
        CacheDecision::Generate
    }
}

} // verus!
