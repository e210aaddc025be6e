//! Stage 1, vision to text: the loaded model bundle and the autoregressive
//! decode loop that turns a preprocessed image tensor into raw text.

use vstd::prelude::*;
use vstd::string::*;
use crate::decode::{vision_run_shape, vision_step_budget};
use crate::errors::InferError;
use crate::sampling::{sampler_new, sampler_sample};
use crate::tensors::{tensor_from_u32_1d, tensor_index_front2, tensor_ones_f32,
    tensor_unsqueeze_front};
use crate::text::concat_frags;
use crate::tokenization::tokenizer_decode;
use candle_transformers::models::trocr::TrOCRModel as TrOCRModelType;

verus! {

#[verifier::external_type_specification]
#[verifier::external_body]
pub struct ExTrOCRModelType(TrOCRModelType);

/// Relies on TrOCRModel::encoder and TrOCREncoder::forward: one encoder
/// pass over the image tensor, producing the memory the decoder attends
/// to; the output's shape and values depend on the loaded weights, which
/// stay opaque here.
#[verifier::external_body]
pub(crate) fn trocr_encode(model: &mut TrOCRModelType, image: &candle_core::Tensor) -> Result<
    candle_core::Tensor,
    candle_core::Error,
> {
    model.encoder().forward(image)
}

/// Relies on TrOCRModel::reset_kv_cache: clears the attention cache
/// retained from the previous request's decode steps.
#[verifier::external_body]
pub(crate) fn trocr_reset_cache(model: &mut TrOCRModelType) {
    model.reset_kv_cache()
}

/// Relies on TrOCRModel::decoder and TrOCRForCausalLM::forward: one
/// decoder step conditioned on the encoder memory and the step index, so
/// the model extends its cache instead of recomputing earlier positions.
#[verifier::external_body]
pub(crate) fn trocr_decode_step(
    model: &mut TrOCRModelType,
    input_ids: &candle_core::Tensor,
    encoder_xs: &candle_core::Tensor,
    past_kv_len: usize,
    attn_mask: &candle_core::Tensor,
) -> Result<candle_core::Tensor, candle_core::Error> {
    model.decoder().forward(input_ids, Some(encoder_xs), past_kv_len, attn_mask)
}

/// Some sequence of sampler outcomes and decoded fragments accounts for
/// `text` as the output of a vision decode run with end-of-sequence token
/// `eos`.
pub open spec fn vision_output_shape(text: Seq<char>, eos: u32) -> bool {
    exists|samples: Seq<u32>, kept: Seq<u32>, frags: Seq<Seq<char>>, stopped: bool|
        {
            &&& vision_run_shape(samples, kept, stopped, eos, vision_step_budget())
            &&& frags.len() == kept.len()
            &&& text == concat_frags(frags)
        }
}

/// The loaded vision-to-text bundle: model weights, tokenizer and the two
/// special token ids. Decoding mutates the model's internal attention
/// cache, so it takes the bundle exclusively.
pub struct TrOCRModel {
    pub model: TrOCRModelType,
    pub tokenizer: tokenizers::Tokenizer,
    pub decoder_start_token_id: u32,
    pub eos_token_id: u32,
}

impl TrOCRModel {
    /// Assembles the bundle from loaded parts, filling in the fixed
    /// sentinel for token ids the configuration left out.
    pub fn assemble(
        model: TrOCRModelType,
        tokenizer: tokenizers::Tokenizer,
        decoder_start_token_id: Option<u64>,
        eos_token_id: Option<u64>,
    ) -> (r: TrOCRModel)
        ensures
            r.decoder_start_token_id == (match decoder_start_token_id {
                Some(v) => v as u32,
                None => 2u32,
            }),
            r.eos_token_id == (match eos_token_id {
                Some(v) => v as u32,
                None => 2u32,
            }),
            r.model == model,
            r.tokenizer == tokenizer,
    {
        TrOCRModel {
            model,
            tokenizer,
            decoder_start_token_id: crate::loading::token_id_or_default(decoder_start_token_id),
            eos_token_id: crate::loading::token_id_or_default(eos_token_id),
        }
    }

    /// Runs the encoder once over the preprocessed image, resets the
    /// attention cache, and decodes autoregressively: up to the fixed step
    /// budget, one single-token forward pass and one deterministic sample
    /// per step, stopping before appending the end-of-sequence token. The
    /// returned text joins the decoded fragments of the kept tokens; some
    /// sequence of sampler outcomes accounts for it in the vision run
    /// shape, so the step budget and the end-of-sequence short circuit
    /// hold of every run.
    pub fn extract_text(&mut self, device: &candle_core::Device, image: &candle_core::Tensor) -> (r:
        Result<String, InferError>)
        ensures
            r matches Ok(text) ==> vision_output_shape(text@, old(self).eos_token_id),
            final(self).decoder_start_token_id == old(self).decoder_start_token_id,
            final(self).eos_token_id == old(self).eos_token_id,
            final(self).tokenizer == old(self).tokenizer,
    {
        let start_id = self.decoder_start_token_id;
        let eos_id = self.eos_token_id;
        let encoder_xs = match trocr_encode(&mut self.model, image) {
            Ok(t) => t,
            Err(_) => {
                return Err(InferError::Forward);
            },
        };
        trocr_reset_cache(&mut self.model);
        let mut sampler = sampler_new(crate::sampling::SAMPLER_SEED);
        let mut tokens: Vec<u32> = Vec::new();
        tokens.push(start_id);
        let mut result_text = String::new();
        let ghost mut samples: Seq<u32> = Seq::empty();
        let ghost mut frags: Seq<Seq<char>> = Seq::empty();
        let mut stopped: bool = false;
        let mut i: usize = 0;
        while i < 128 && !stopped
            invariant
                0 <= i <= 128,
                samples.len() == i,
                tokens@.len() >= 1,
                tokens@[0] == start_id,
                !stopped ==> samples == tokens@.skip(1),
                stopped ==> samples == tokens@.skip(1) + seq![eos_id],
                crate::decode::stop_free(tokens@.skip(1), eos_id),
                frags.len() == tokens@.len() - 1,
                result_text@ == concat_frags(frags),
                self.decoder_start_token_id == old(self).decoder_start_token_id,
                self.eos_token_id == old(self).eos_token_id,
                self.tokenizer == old(self).tokenizer,
                eos_id == old(self).eos_token_id,
                start_id == old(self).decoder_start_token_id,
            decreases 128 - i,
        {
            let last_token = tokens[tokens.len() - 1];
            let input_row = match tensor_from_u32_1d(vec![last_token], device) {
                Ok(t) => t,
                Err(_) => {
                    return Err(InferError::TensorFailure);
                },
            };
            let input_ids = match tensor_unsqueeze_front(&input_row) {
                Ok(t) => t,
                Err(_) => {
                    return Err(InferError::TensorFailure);
                },
            };
            let attn_mask = match tensor_ones_f32(1, 1, device) {
                Ok(t) => t,
                Err(_) => {
                    return Err(InferError::TensorFailure);
                },
            };
            let step_logits = match trocr_decode_step(
                &mut self.model,
                &input_ids,
                &encoder_xs,
                i,
                &attn_mask,
            ) {
                Ok(t) => t,
                Err(_) => {
                    return Err(InferError::Forward);
                },
            };
            let logits = match tensor_index_front2(&step_logits) {
                Ok(t) => t,
                Err(_) => {
                    return Err(InferError::Forward);
                },
            };
            let next_token = match sampler_sample(&mut sampler, &logits) {
                Ok(t) => t,
                Err(_) => {
                    return Err(InferError::Sampling);
                },
            };
            proof {
                samples = samples + seq![next_token];
            }
            if next_token == eos_id {
                stopped = true;
                proof {
                    assert(samples =~= tokens@.skip(1) + seq![eos_id]);
                }
            } else {
                tokens.push(next_token);
                proof {
                    assert(tokens@.skip(1) =~= samples);
                }
                match tokenizer_decode(&self.tokenizer, next_token) {
                    Some(fragment) => {
                        result_text.append(fragment.as_str());
                        proof {
                            let prev = frags;
                            frags = frags + seq![fragment@];
                            assert(frags.drop_last() =~= prev);
                        }
                    },
                    None => {
                        proof {
                            let prev = frags;
                            frags = frags + seq![Seq::<char>::empty()];
                            assert(frags.drop_last() =~= prev);
                            assert(concat_frags(frags) =~= concat_frags(prev));
                        }
                    },
                }
            }
            i += 1;
        }
        proof {
            let kept = tokens@.skip(1);
            if stopped {
                assert(samples.len() >= 1);
                assert(samples.last() == eos_id);
                assert(samples.drop_last() =~= kept);
            } else {
                assert(samples.len() == 128);
            }
            assert(vision_run_shape(samples, kept, stopped, eos_id, vision_step_budget()));
            assert(frags.len() == kept.len());
            assert(result_text@ == concat_frags(frags));
            assert(vision_output_shape(result_text@, eos_id));
        }
        Ok(result_text)
    }
}

} // verus!
