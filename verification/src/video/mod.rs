//! Video: encoder choice and FFmpeg arguments of the clip processor, and the
//! clip selection of the auto-editor.

pub mod auto_composer;
pub mod canvas;
pub mod processor;

use vstd::prelude::*;

verus! {

/// Video processing errors.
#[derive(Debug)]
pub enum VideoError {
    /// FFmpeg failed (its message).
    FfmpegError(String),
    /// A file was not found (its path).
    FileNotFound(String),
    /// Processing failed (the reason).
    ProcessingError(String),
    /// No clip could be selected.
    NoClipsFound,
}

} // verus!
