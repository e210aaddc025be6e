//! The error taxonomy of the pipeline: loading failures degrade readiness,
//! preprocessing failures are fatal to the single request, and inference
//! failures are fatal for the vision stage but recoverable for cleanup.

use vstd::prelude::*;

verus! {

/// Startup loading failure of one model bundle. Never aborts the process:
/// the bundle is recorded as absent and the pipeline degrades.
#[derive(Debug, Clone, Copy, PartialEq, Eq, Structural)]
pub enum LoadError {
    /// A required local artifact (weights, configuration or tokenizer
    /// file) is missing.
    MissingArtifact,
    /// The remote model-hub fallback could not fetch the artifacts.
    FetchFailed,
    /// An artifact was present but could not be parsed or loaded.
    Malformed,
}

/// The input image could not be turned into the fixed-shape tensor.
#[derive(Debug, Clone, Copy, PartialEq, Eq, Structural)]
pub enum PreprocessError {
    /// The image file could not be read or decoded.
    Undecodable,
    /// Resizing or tensor construction failed.
    TensorFailure,
}

/// A tensor or model-forward failure during decoding.
#[derive(Debug, Clone, Copy, PartialEq, Eq, Structural)]
pub enum InferError {
    /// Building an input tensor for a forward pass failed.
    TensorFailure,
    /// A model forward pass failed.
    Forward,
    /// Sampling a token from the logits failed.
    Sampling,
    /// The prompt could not be tokenized.
    TokenizeFailed,
    /// The tokenized prompt is too long for the step positions to fit.
    PromptTooLong,
}

/// Probing or initializing the compute device failed.
#[derive(Debug, Clone, Copy, PartialEq, Eq, Structural)]
pub enum DeviceError {
    /// The accelerator reported itself available but could not be opened.
    AcceleratorInit,
}

/// What a whole request can fail with. Cleanup failures never appear here:
/// they fall back to the raw text instead.
#[derive(Debug, Clone, Copy, PartialEq, Eq, Structural)]
pub enum ProcessError {
    /// The image could not be decoded or preprocessed.
    Preprocess(PreprocessError),
    /// The vision stage failed; there is no fallback for it.
    Infer(InferError),
}

} // verus!
