//! The structured value that one recognition request produces, and the
//! rules that fill it in from the outcome of the two model stages.

use vstd::prelude::*;

verus! {

/// Single-shot, immutable result of one request.
#[derive(Debug, Clone)]
pub struct InferenceResult {
    pub status: String,
    pub raw_text: String,
    pub cleaned_text: String,
    pub accuracy_level: String,
    pub engine: String,
}

/// What the text-cleanup stage came to for one request.
#[derive(Debug)]
pub enum Stage2Outcome {
    /// The cleanup bundle was never loaded.
    Absent,
    /// Cleanup ran and produced this text.
    Cleaned(String),
    /// Cleanup ran and failed; the request falls back to the raw text.
    Failed,
}

/// Holds exactly when `r` is the fixed answer given while the
/// vision-to-text bundle is unavailable.
pub open spec fn is_mock_result(r: InferenceResult) -> bool {
    &&& r.status@ == "success"@
    &&& r.raw_text@ == "MOCK OCR TEXT"@
    &&& r.cleaned_text@ == "MOCK CLEANED TEXT"@
    &&& r.accuracy_level@ == "Mock Data"@
    &&& r.engine@ == "Stub (OCR models unavailable)"@
}

/// The fixed answer for a pipeline whose vision-to-text bundle is absent.
pub fn mock_result() -> (r: InferenceResult)
    ensures
        is_mock_result(r),
{
    InferenceResult {
        status: String::from_str("success"),
        raw_text: String::from_str("MOCK OCR TEXT"),
        cleaned_text: String::from_str("MOCK CLEANED TEXT"),
        accuracy_level: String::from_str("Mock Data"),
        engine: String::from_str("Stub (OCR models unavailable)"),
    }
}

/// Holds exactly when `r` reports `raw` and `cleaned` with the given
/// quality label, as a successful two-stage answer.
pub open spec fn is_inference_report(
    r: InferenceResult,
    raw: Seq<char>,
    cleaned: Seq<char>,
    llm_optimized: bool,
) -> bool {
    &&& r.status@ == "success"@
    &&& r.raw_text@ == raw
    &&& r.cleaned_text@ == cleaned
    &&& r.accuracy_level@ == (if llm_optimized {
        "LLM-optimized"@
    } else {
        "raw extraction"@
    })
    &&& r.engine@ == "Candle Pure Rust (Two-Stage Pipeline)"@
}

/// Builds the request's answer from the raw extraction and the cleanup
/// outcome. A failed or absent cleanup never fails the request: the raw
/// text is reported as the cleaned text, at the lower quality label.
pub fn compose_result(raw_text: String, stage2: Stage2Outcome) -> (r: InferenceResult)
    ensures
        stage2 matches Stage2Outcome::Cleaned(t) ==> is_inference_report(r, raw_text@, t@, true),
        !(stage2 is Cleaned) ==> is_inference_report(r, raw_text@, raw_text@, false),
{
    let (cleaned_text, llm_optimized): (String, bool) = match stage2 {
        Stage2Outcome::Cleaned(t) => (t, true),
        Stage2Outcome::Absent => (raw_text.clone(), false),
        Stage2Outcome::Failed => (raw_text.clone(), false),
    };
    let accuracy_level: String = if llm_optimized {
        String::from_str("LLM-optimized")
    } else {
        String::from_str("raw extraction")
    };
    InferenceResult {
        status: String::from_str("success"),
        raw_text,
        cleaned_text,
        accuracy_level,
        engine: String::from_str("Candle Pure Rust (Two-Stage Pipeline)"),
    }
}

} // verus!
