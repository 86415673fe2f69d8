//! Error taxonomy of a run.
//!
//! Configuration errors are fatal and stop a run before any file is
//! processed. Task errors are contained at the file they struck: the first
//! one aborts that file's remaining tasks and becomes the file's outcome,
//! while every other file is still attempted.

use vstd::prelude::*;

verus! {

/// A fatal pre-flight error: the configuration or an explicitly named input
/// is rejected before any processing starts.
#[derive(Clone, Debug)]
pub enum ValidationError {
    /// The quality setting lies outside 0..=100.
    QualityOutOfRange { quality: u8 },
    /// A scale percentage lies outside 10..=100.
    ScaleOutOfRange { scale: u32 },
    /// A directly named input file has no supported image extension.
    UnsupportedFile { path: String },
}

/// The error that failed one input file. The decode and filename errors
/// strike before any task runs; the others name the task they struck
/// through the outcome that carries them.
#[derive(Clone, Debug)]
pub enum TaskError {
    /// The input could not be decoded: unreadable, corrupt, or an
    /// unsupported container.
    Decode { message: String },
    /// The input path has no usable file name to derive output names from.
    InvalidFilename,
    /// A non-identity scale rounded one axis to zero pixels.
    DegenerateSize { width: u32, height: u32, scale: u32 },
    /// The task's format identifier names no supported encoder.
    UnsupportedFormat { format: String },
    /// The encoder rejected the image.
    Encode { message: String },
    /// Writing the encoded output failed.
    Write { message: String },
}

/// The result of processing one input file: success, or the first error
/// that struck it, with the input path and the index of the task that was
/// executing (no index when the failure preceded every task).
#[derive(Clone, Debug)]
pub enum FileOutcome {
    Success { input: String },
    Failure { input: String, failed_task: Option<usize>, error: TaskError },
}

/// Whether an outcome reports a failure.
pub open spec fn is_failure(o: FileOutcome) -> bool {
    o is Failure
}

} // verus!
