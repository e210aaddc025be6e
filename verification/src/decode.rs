//! The shape of an autoregressive decode run: what any sequence of sampler
//! outcomes forces the loops to keep, and when they must stop.
//!
//! The model forward passes and the sampler are outside calls whose values
//! the library cannot predict; what it can pin down is how the loops react
//! to every possible sampled sequence. Each decode loop returns, besides
//! its text, a ghost record of the sampled tokens (and decoded fragments),
//! and its contract says that the record and the kept output stand in the
//! run shape defined here.

use vstd::prelude::*;
use crate::text::{concat_frags, marker_free, trim_at_marker};

verus! {

/// The vision stage decodes at most this many tokens per request.
pub open spec fn vision_step_budget() -> int {
    128
}

/// The cleanup stage decodes at most this many tokens per request.
pub open spec fn cleanup_step_budget() -> int {
    256
}

/// No sampled token equals the end-of-sequence token.
pub open spec fn stop_free(samples: Seq<u32>, eos: u32) -> bool {
    forall|i: int| 0 <= i < samples.len() ==> samples[i] != eos
}

/// The end-of-sequence token appears first at position `k`.
pub open spec fn stops_at(samples: Seq<u32>, eos: u32, k: int) -> bool {
    &&& 0 <= k < samples.len()
    &&& samples[k] == eos
    &&& forall|j: int| 0 <= j < k ==> samples[j] != eos
}

/// How a vision-stage decode run relates the sampled tokens to the kept
/// ones: one forward pass and one sampling per entry of `samples`; the run
/// ends either on the first end-of-sequence token, which is dropped, or
/// after exactly `budget` samples.
pub open spec fn vision_run_shape(
    samples: Seq<u32>,
    kept: Seq<u32>,
    stopped: bool,
    eos: u32,
    budget: int,
) -> bool {
    &&& samples.len() <= budget
    &&& stopped ==> samples.len() >= 1 && samples.last() == eos && kept == samples.drop_last()
    &&& !stopped ==> samples.len() == budget && kept == samples
    &&& stop_free(kept, eos)
}

/// Decode termination, vision stage: whatever the sampler returns, the run
/// makes at most `budget` forward passes and keeps at most `budget` tokens.
pub proof fn lemma_vision_step_budget(
    samples: Seq<u32>,
    kept: Seq<u32>,
    stopped: bool,
    eos: u32,
    budget: int,
)
    requires
        vision_run_shape(samples, kept, stopped, eos, budget),
    ensures
        samples.len() <= budget,
        kept.len() <= budget,
{
}

/// End-of-sequence short circuit: if the sampler produces the
/// end-of-sequence token first at step `k`, the run stops right there —
/// exactly `k + 1` forward passes happen, and exactly the tokens of steps
/// `0 .. k` are kept, in order.
pub proof fn lemma_eos_short_circuit(
    samples: Seq<u32>,
    kept: Seq<u32>,
    stopped: bool,
    eos: u32,
    budget: int,
    k: int,
)
    requires
        vision_run_shape(samples, kept, stopped, eos, budget),
        stops_at(samples, eos, k),
    ensures
        stopped,
        samples.len() == k + 1,
        kept == samples.take(k),
        k < budget,
{
    assert(stopped) by {
        if !stopped {
            assert(samples[k] != eos);
        }
    }
    assert(samples.len() == k + 1) by {
        if k < samples.len() - 1 {
            assert(kept[k] == samples[k]);
        }
    }
    assert(kept =~= samples.take(k));
}

/// A run whose sampler never produces the end-of-sequence token runs the
/// whole budget and keeps every sampled token.
pub proof fn lemma_no_stop_runs_full_budget(
    samples: Seq<u32>,
    kept: Seq<u32>,
    stopped: bool,
    eos: u32,
    budget: int,
)
    requires
        vision_run_shape(samples, kept, stopped, eos, budget),
        stop_free(samples, eos),
    ensures
        !stopped,
        samples.len() == budget,
        kept == samples,
{
    if stopped {
        assert(samples.last() == eos);
        assert(samples[samples.len() - 1] != eos);
    }
}

/// The fragments joined in order, each cut at its first stop marker.
pub open spec fn concat_trimmed(frags: Seq<Seq<char>>) -> Seq<char>
    decreases frags.len(),
{
    if frags.len() == 0 {
        Seq::empty()
    } else {
        concat_trimmed(frags.drop_last()) + trim_at_marker(frags.last())
    }
}

/// How a cleanup-stage decode run relates the decoded fragments to the
/// returned text: one forward pass, one sampling and one decode per entry
/// of `frags`; the run ends either on the first fragment that holds a stop
/// marker — kept only up to the marker — or after exactly `budget` steps.
pub open spec fn cleanup_run_shape(
    frags: Seq<Seq<char>>,
    text: Seq<char>,
    stopped: bool,
    budget: int,
) -> bool {
    &&& frags.len() <= budget
    &&& forall|i: int| 0 <= i < frags.len() - 1 ==> marker_free(#[trigger] frags[i])
    &&& stopped ==> frags.len() >= 1 && !marker_free(frags.last())
    &&& !stopped ==> frags.len() == budget && (frags.len() > 0 ==> marker_free(frags.last()))
    &&& text == concat_trimmed(frags)
}

/// Decode termination, cleanup stage: whatever the model and tokenizer
/// return, the run makes at most `budget` forward passes.
pub proof fn lemma_cleanup_step_budget(
    frags: Seq<Seq<char>>,
    text: Seq<char>,
    stopped: bool,
    budget: int,
)
    requires
        cleanup_run_shape(frags, text, stopped, budget),
    ensures
        frags.len() <= budget,
{
}

/// Joining marker-free fragments trims nothing.
pub proof fn lemma_concat_trimmed_marker_free(frags: Seq<Seq<char>>)
    requires
        forall|i: int| 0 <= i < frags.len() ==> marker_free(#[trigger] frags[i]),
    ensures
        concat_trimmed(frags) == concat_frags(frags),
    decreases frags.len(),
{
    if frags.len() > 0 {
        lemma_concat_trimmed_marker_free(frags.drop_last());
        crate::text::lemma_first_marker(frags.last());
    }
}

/// Marker short circuit, cleanup stage: if the first fragment holding a
/// stop marker is produced at step `k`, the run stops right there — exactly
/// `k + 1` forward passes happen, and the text is the first `k` fragments
/// followed by the final fragment cut at its marker.
pub proof fn lemma_marker_short_circuit(
    frags: Seq<Seq<char>>,
    text: Seq<char>,
    stopped: bool,
    budget: int,
    k: int,
)
    requires
        cleanup_run_shape(frags, text, stopped, budget),
        0 <= k < frags.len(),
        !marker_free(frags[k]),
        forall|j: int| 0 <= j < k ==> marker_free(#[trigger] frags[j]),
    ensures
        stopped,
        frags.len() == k + 1,
        text == concat_frags(frags.take(k)) + trim_at_marker(frags[k]),
        k < budget,
{
    assert(stopped) by {
        if !stopped {
            if frags.len() > 0 && k == frags.len() - 1 {
                assert(marker_free(frags.last()));
            } else {
                assert(marker_free(frags[k]));
            }
        }
    }
    assert(frags.len() == k + 1) by {
        if k < frags.len() - 1 {
            assert(marker_free(frags[k]));
        }
    }
    assert(frags.drop_last() =~= frags.take(k));
    assert(forall|i: int| 0 <= i < frags.take(k).len() ==> marker_free(
        #[trigger] frags.take(k)[i],
    ));
    lemma_concat_trimmed_marker_free(frags.take(k));
    assert(frags.last() == frags[k]);
}

} // verus!
