use vstd::prelude::*;

verus! {

/// The ways a pipeline invocation can fail. Every stage fails fast; no stage
/// recovers locally.
#[derive(Debug, Clone, Copy, PartialEq, Eq, Structural)]
pub enum PipelineError {
    /// The image is unreadable, corrupt or of an unsupported format.
    Decode,
    /// The model artifact is missing or corrupt, or the requested execution
    /// provider is unavailable.
    ModelLoad,
    /// Model execution failed, or its tensors do not have the expected shapes.
    Inference,
    /// The model produced no candidate, or the remote service found no plate.
    NoDetection,
    /// A crop region is empty or does not lie inside the image.
    InvalidRegion,
    /// The cropped image could not be encoded.
    Encode,
    /// The cropped image could not be written.
    Write,
}

} // verus!
