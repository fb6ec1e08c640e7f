//! Pipeline orchestration for a narrated-slideshow video generator.
//!
//! Prose is decomposed into an ordered storyboard of scenes; an image and a
//! narration track are produced for each run through external generative
//! services; timed segments are assembled and muxed by an external media
//! renderer. This crate holds the control layer that drives those
//! collaborators reliably: stage sequencing, existence-based resumability,
//! the bounded polling protocol for long-running remote jobs, and the
//! chunking protocol for the narration service's input-size cap. All
//! network, filesystem and process work is performed by the embedding
//! program, which executes the actions this library's state machine emits.

pub mod cache;
pub mod errors;
pub mod paths;
pub mod pipeline;
pub mod poll;
pub mod render;
pub mod scene;
pub mod text;
