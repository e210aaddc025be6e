//! Trusted view of the token sampler: the opaque logits processor and the
//! fixed seed that makes each decode run reproducible.

use vstd::prelude::*;

verus! {

#[verifier::external_type_specification]
#[verifier::external_body]
pub struct ExLogitsProcessor(candle_transformers::generation::LogitsProcessor);

/// The fixed sampler seed: decode runs are reproducible per process.
pub const SAMPLER_SEED: u64 = 1337;

/// Relies on candle_transformers::generation::LogitsProcessor::new: with
/// no temperature and no nucleus cutoff the sampler picks the most likely
/// token deterministically.
#[verifier::external_body]
pub(crate) fn sampler_new(seed: u64) -> candle_transformers::generation::LogitsProcessor {
    candle_transformers::generation::LogitsProcessor::new(seed, None, None)
}

/// Relies on LogitsProcessor::sample: a token index drawn from the logits
/// vector; which one depends on the model's scores, which stay opaque
/// here, so nothing is promised of the outcome.
#[verifier::external_body]
pub(crate) fn sampler_sample(
    lp: &mut candle_transformers::generation::LogitsProcessor,
    logits: &candle_core::Tensor,
) -> Result<u32, candle_core::Error> {
    lp.sample(logits)
}

} // verus!
