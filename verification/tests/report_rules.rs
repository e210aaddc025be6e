//! The result-composition rules: mock answers, cleanup fallback, and the
//! cleanup prompt.

use ocr_pipeline::report::{compose_result, mock_result, Stage2Outcome};
use ocr_pipeline::stage2::build_prompt;

#[test]
fn mock_result_is_fixed_and_labelled_stub() {
    let r = mock_result();
    assert_eq!(r.status, "success");
    assert_eq!(r.raw_text, "MOCK OCR TEXT");
    assert_eq!(r.cleaned_text, "MOCK CLEANED TEXT");
    assert_eq!(r.accuracy_level, "Mock Data");
    assert_eq!(r.engine, "Stub (OCR models unavailable)");
    assert!(r.engine.contains("Stub"));
}

#[test]
fn cleanup_success_reports_optimized_text() {
    let r = compose_result(
        String::from("raw words"),
        Stage2Outcome::Cleaned(String::from("clean words")),
    );
    assert_eq!(r.status, "success");
    assert_eq!(r.raw_text, "raw words");
    assert_eq!(r.cleaned_text, "clean words");
    assert_eq!(r.accuracy_level, "LLM-optimized");
    assert_eq!(r.engine, "Candle Pure Rust (Two-Stage Pipeline)");
}

#[test]
fn cleanup_failure_falls_back_to_raw_text() {
    let r = compose_result(String::from("raw words"), Stage2Outcome::Failed);
    assert_eq!(r.status, "success");
    assert_eq!(r.raw_text, "raw words");
    assert_eq!(r.cleaned_text, "raw words");
    assert_eq!(r.accuracy_level, "raw extraction");
}

#[test]
fn cleanup_absent_reports_raw_text() {
    let r = compose_result(String::from("raw words"), Stage2Outcome::Absent);
    assert_eq!(r.status, "success");
    assert_eq!(r.cleaned_text, "raw words");
    assert_eq!(r.accuracy_level, "raw extraction");
}

#[test]
fn prompt_embeds_raw_text() {
    let p = build_prompt("sm0ke on the watr");
    assert_eq!(
        p,
        "<|user|>\nClean this text and fix OCR errors: sm0ke on the watr\n<|assistant|>"
    );
}

#[test]
fn prompt_of_empty_text() {
    let p = build_prompt("");
    assert_eq!(p, "<|user|>\nClean this text and fix OCR errors: \n<|assistant|>");
}
