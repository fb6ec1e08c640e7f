//! Error taxonomy for a pipeline run.
//!
//! Every variant is fatal to the run: transient poll failures are retried
//! inside the polling protocol and never surface here. Resumability is the
//! only recovery mechanism: re-running the pipeline skips assets that
//! already exist on disk.

use vstd::prelude::*;

verus! {

/// Why one remote generation job (an image, or one narration chunk) failed.
#[derive(Debug, Clone)]
pub enum TaskFailure {
    /// The poll budget was exhausted without the job reaching a terminal
    /// state.
    Timeout,
    /// The service reported a terminal failure state for the job.
    RemoteTaskFailed,
    /// The service reported terminal success but carried no result locator.
    EmptyResult,
    /// Submitting the job failed outright; carries the transport diagnostic.
    Submit { message: String },
    /// Fetching the finished asset from its locator, or writing it to its
    /// destination, failed; carries the transport or filesystem
    /// diagnostic.
    Fetch { message: String },
}

/// A fatal pipeline error, tagged with the stage (and where applicable the
/// scene index) that failed.
#[derive(Debug, Clone)]
pub enum VideoError {
    /// The decomposition response was not a well-formed ordered list of
    /// scene records with positive durations. Fatal, never retried.
    Decomposition { message: String },
    /// Image generation failed for the scene with this index; the whole run
    /// aborts, later scenes are not processed.
    ImageGeneration { scene_index: usize, failure: TaskFailure },
    /// Narration audio generation failed for one of the script chunks.
    Narration { failure: TaskFailure },
    /// The external media renderer exited non-zero; carries its diagnostic
    /// output verbatim.
    Assembly { diagnostic: String },
}

} // verus!
