//! An on-device, two-stage document-recognition pipeline: a vision
//! encoder-decoder turns an image into raw text, and an optional quantized
//! language model rewrites that text to correct recognition errors. The
//! orchestrator around them selects the compute device once, tracks which
//! model bundles loaded, degrades to a fixed mock answer when the vision
//! bundle is absent, and falls back to the raw text when cleanup fails.
//!
//! Tensor computation, tokenization and image decoding are done by outside
//! libraries behind small trusted wrappers; the decode loops, their stop
//! rules and budgets, the preprocessing shape, and the orchestration and
//! fallback rules are verified.

pub mod decode;
pub mod errors;
pub mod imaging;
pub mod loading;
pub mod pipeline;
pub mod report;
pub mod sampling;
pub mod service_api;
pub mod stage1;
pub mod stage2;
pub mod tensors;
pub mod text;
pub mod tokenization;
