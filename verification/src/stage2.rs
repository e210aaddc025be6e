//! Stage 2, text cleanup: the quantized causal language model decodes a
//! correction of the raw recognized text from an instruction prompt.

use vstd::prelude::*;
use vstd::string::*;
use crate::decode::{cleanup_run_shape, cleanup_step_budget, concat_trimmed};
use crate::errors::InferError;
use crate::sampling::{sampler_new, sampler_sample};
use crate::tensors::{tensor_from_u32_1d, tensor_squeeze_front, tensor_to_f32,
    tensor_unsqueeze_front};
use crate::text::{append_fragment, marker_free, trim_at_marker};
use crate::tokenization::{tokenizer_decode, tokenizer_encode};
use candle_transformers::models::quantized_phi3::ModelWeights;

verus! {

#[verifier::external_type_specification]
#[verifier::external_body]
pub struct ExModelWeights(ModelWeights);

/// Relies on quantized_phi3::ModelWeights::forward: one forward pass of
/// the most recent token at the given absolute position, so the model
/// extends its cache; the output depends on the loaded weights, which
/// stay opaque here.
#[verifier::external_body]
pub(crate) fn phi3_forward(
    model: &mut ModelWeights,
    xs: &candle_core::Tensor,
    index_pos: usize,
) -> Result<candle_core::Tensor, candle_core::Error> {
    model.forward(xs, index_pos)
}

/// The instruction prompt that embeds the raw text for cleanup, followed
/// by the assistant-turn marker.
pub open spec fn cleanup_prompt(raw: Seq<char>) -> Seq<char> {
    "<|user|>\nClean this text and fix OCR errors: "@ + raw + "\n<|assistant|>"@
}

/// Builds the cleanup instruction prompt around the raw text.
pub fn build_prompt(raw: &str) -> (r: String)
    ensures
        r@ == cleanup_prompt(raw@),
{
    let mut p = String::from_str("<|user|>\nClean this text and fix OCR errors: ");
    p.append(raw);
    p.append("\n<|assistant|>");
    proof {
        assert(p@ =~= cleanup_prompt(raw@));
    }
    p
}

/// Some sequence of decoded fragments accounts for `text` as the output
/// of a cleanup decode run.
pub open spec fn cleanup_output_shape(text: Seq<char>) -> bool {
    exists|frags: Seq<Seq<char>>, stopped: bool|
        cleanup_run_shape(frags, text, stopped, cleanup_step_budget())
}

/// The loaded text-cleanup bundle: quantized model weights and their
/// tokenizer. Decoding mutates the model's internal attention cache, so
/// it takes the bundle exclusively.
pub struct Phi3Bundle {
    pub model: ModelWeights,
    pub tokenizer: tokenizers::Tokenizer,
}

impl Phi3Bundle {
    /// Decodes a cleaned version of `raw`: the instruction prompt is
    /// tokenized once, then up to the fixed step budget one forward pass
    /// at the running absolute position, one deterministic sample and one
    /// decode per step; the run ends early on the first fragment holding
    /// an end-of-turn or end-of-text marker, kept only up to the marker.
    /// The decoded fragments account for the returned text in the cleanup
    /// run shape, so the step budget and the marker short circuit hold of
    /// every run.
    pub fn clean_text(&mut self, device: &candle_core::Device, raw: &str) -> (r: Result<
        String,
        InferError,
    >)
        ensures
            r matches Ok(text) ==> cleanup_output_shape(text@),
            final(self).tokenizer == old(self).tokenizer,
    {
        let prompt = build_prompt(raw);
        let mut input_ids: Vec<u32> = match tokenizer_encode(&self.tokenizer, prompt.as_str()) {
            Some(v) => v,
            None => {
                return Err(InferError::TokenizeFailed);
            },
        };
        let prompt_tokens = input_ids.len();
        if prompt_tokens == 0 {
            return Err(InferError::TokenizeFailed);
        }
        if prompt_tokens > usize::MAX - 256 {
            return Err(InferError::PromptTooLong);
        }
        let mut sampler = sampler_new(crate::sampling::SAMPLER_SEED);
        let mut result_text = String::new();
        let ghost mut frags: Seq<Seq<char>> = Seq::empty();
        let mut stopped: bool = false;
        let mut i: usize = 0;
        while i < 256 && !stopped
            invariant
                0 <= i <= 256,
                frags.len() == i,
                input_ids@.len() == prompt_tokens + i,
                prompt_tokens >= 1,
                prompt_tokens + 256 <= usize::MAX,
                result_text@ == concat_trimmed(frags),
                !stopped ==> forall|j: int| 0 <= j < frags.len() ==> marker_free(
                    #[trigger] frags[j],
                ),
                stopped ==> frags.len() >= 1 && !marker_free(frags.last()) && forall|j: int|
                    0 <= j < frags.len() - 1 ==> marker_free(#[trigger] frags[j]),
                self.tokenizer == old(self).tokenizer,
            decreases 256 - i,
        {
            let last_token = input_ids[input_ids.len() - 1];
            let input_row = match tensor_from_u32_1d(vec![last_token], device) {
                Ok(t) => t,
                Err(_) => {
                    return Err(InferError::TensorFailure);
                },
            };
            let input_tensor = match tensor_unsqueeze_front(&input_row) {
                Ok(t) => t,
                Err(_) => {
                    return Err(InferError::TensorFailure);
                },
            };
            let step_logits = match phi3_forward(&mut self.model, &input_tensor, prompt_tokens + i)
                {
                Ok(t) => t,
                Err(_) => {
                    return Err(InferError::Forward);
                },
            };
            let squeezed_once = match tensor_squeeze_front(&step_logits) {
                Ok(t) => t,
                Err(_) => {
                    return Err(InferError::Forward);
                },
            };
            let squeezed = match tensor_squeeze_front(&squeezed_once) {
                Ok(t) => t,
                Err(_) => {
                    return Err(InferError::Forward);
                },
            };
            let logits = match tensor_to_f32(&squeezed) {
                Ok(t) => t,
                Err(_) => {
                    return Err(InferError::Forward);
                },
            };
            let next_token = match sampler_sample(&mut sampler, &logits) {
                Ok(t) => t,
                Err(_) => {
                    return Err(InferError::Sampling);
                },
            };
            input_ids.push(next_token);
            match tokenizer_decode(&self.tokenizer, next_token) {
                Some(fragment) => {
                    let stop_now = append_fragment(&mut result_text, fragment.as_str());
                    proof {
                        let prev = frags;
                        frags = frags + seq![fragment@];
                        assert(frags.drop_last() =~= prev);
                    }
                    if stop_now {
                        stopped = true;
                    }
                },
                None => {
                    proof {
                        let prev = frags;
                        frags = frags + seq![Seq::<char>::empty()];
                        assert(frags.drop_last() =~= prev);
                        crate::text::lemma_first_marker(Seq::<char>::empty());
                        assert(trim_at_marker(Seq::<char>::empty()) =~= Seq::<char>::empty());
                        assert(concat_trimmed(frags) =~= concat_trimmed(prev));
                    }
                },
            }
            i += 1;
        }
        proof {
            if !stopped {
                assert(frags.len() == 256);
            }
            assert(cleanup_run_shape(frags, result_text@, stopped, cleanup_step_budget()));
            assert(cleanup_output_shape(result_text@));
        }
        Ok(result_text)
    }
}

} // verus!
