//! End-to-end pipeline behavior: degraded mode, preprocessing shape and
//! range, and the vision decode loop run against a small zero-weight
//! model.

use candle_core::{DType, Device};
use candle_nn::VarBuilder;
use candle_transformers::models::trocr::{TrOCRConfig, TrOCRModel as CandleTrOCR};
use candle_transformers::models::vit;
use ocr_pipeline::errors::{InferError, PreprocessError, ProcessError};
use ocr_pipeline::imaging::preprocess;
use ocr_pipeline::pipeline::{OcrPipeline, Readiness};
use ocr_pipeline::stage1::TrOCRModel;

fn tiny_tokenizer() -> tokenizers::Tokenizer {
    let json = "{\"version\":\"1.0\",\"truncation\":null,\"padding\":null,\
        \"added_tokens\":[],\"normalizer\":null,\"pre_tokenizer\":null,\
        \"post_processor\":null,\"decoder\":null,\
        \"model\":{\"type\":\"WordLevel\",\
        \"vocab\":{\"hello\":0,\"<unk>\":1},\"unk_token\":\"<unk>\"}}";
    tokenizers::Tokenizer::from_bytes(json.as_bytes()).unwrap()
}

fn tiny_trocr(eos_token_id: u32) -> TrOCRModel {
    let device = Device::Cpu;
    let vb = VarBuilder::zeros(DType::F32, &device);
    let encoder_cfg = vit::Config {
        hidden_size: 8,
        num_hidden_layers: 1,
        num_attention_heads: 2,
        intermediate_size: 16,
        hidden_act: candle_nn::Activation::Gelu,
        layer_norm_eps: 1e-12,
        image_size: 384,
        patch_size: 32,
        num_channels: 3,
        qkv_bias: true,
    };
    let decoder_cfg = TrOCRConfig {
        vocab_size: 8,
        d_model: 8,
        cross_attention_hidden_size: 8,
        decoder_layers: 1,
        decoder_attention_heads: 2,
        decoder_ffn_dim: 16,
        activation_function: candle_nn::Activation::Gelu,
        max_position_embeddings: 512,
        dropout: 0.0,
        attention_dropout: 0.0,
        activation_dropout: 0.0,
        decoder_start_token_id: 0,
        init_std: 0.02,
        decoder_layerdrop: 0.0,
        use_cache: true,
        scale_embedding: false,
        pad_token_id: 1,
        bos_token_id: 0,
        eos_token_id: 2,
        decoder_vocab_size: Some(8),
        use_learned_position_embeddings: true,
        tie_word_embeddings: true,
    };
    let model = CandleTrOCR::new(&encoder_cfg, &decoder_cfg, vb).unwrap();
    TrOCRModel::assemble(
        model,
        tiny_tokenizer(),
        Some(0),
        Some(eos_token_id as u64),
    )
}

#[test]
fn degraded_mode_returns_fixed_mock_result() {
    let mut p = OcrPipeline {
        device: Device::Cpu,
        trocr: None,
        phi3: None,
    };
    let a = p.process_image("definitely/not/a/real/file.png").unwrap();
    let b = p.process_image("another/missing/path.jpg").unwrap();
    assert_eq!(a.status, "success");
    assert!(a.engine.contains("Stub"));
    assert_eq!(a.raw_text, b.raw_text);
    assert_eq!(a.cleaned_text, b.cleaned_text);
    assert_eq!(a.accuracy_level, b.accuracy_level);
    assert_eq!(a.engine, b.engine);
}

#[test]
fn readiness_reflects_loaded_bundles() {
    let mut p = OcrPipeline {
        device: Device::Cpu,
        trocr: None,
        phi3: None,
    };
    assert!(matches!(p.readiness(), Readiness::Unavailable));
    assert!(!p.is_ready());
    p.init_models(Some(tiny_trocr(2)), None);
    assert!(matches!(p.readiness(), Readiness::Stage1Only));
    assert!(!p.is_ready());
}

#[test]
fn new_pipeline_starts_without_bundles() {
    let p = OcrPipeline::new().unwrap();
    assert!(matches!(p.readiness(), Readiness::Unavailable));
}

#[test]
fn preprocess_yields_unit_batch_of_normalized_planes() {
    let device = Device::Cpu;
    let img = image::DynamicImage::new_rgb8(1000, 600);
    let t = preprocess(&img, &device).unwrap();
    assert_eq!(t.dims(), &[1, 3, 384, 384]);
    let values = t.flatten_all().unwrap().to_vec1::<f32>().unwrap();
    assert_eq!(values.len(), 3 * 384 * 384);
    for v in &values {
        assert!(*v >= -1.0 && *v <= 1.0);
        assert!((*v - (-1.0)).abs() < 1e-6);
    }
}

#[test]
fn preprocess_normalizes_pixel_values() {
    let device = Device::Cpu;
    let white = image::RgbImage::from_pixel(20, 20, image::Rgb([255u8, 255, 255]));
    let t = preprocess(&image::DynamicImage::ImageRgb8(white), &device).unwrap();
    let values = t.flatten_all().unwrap().to_vec1::<f32>().unwrap();
    for v in &values {
        assert!((*v - 1.0).abs() < 1e-6);
    }
    let grey = image::RgbImage::from_pixel(20, 20, image::Rgb([128u8, 128, 128]));
    let t = preprocess(&image::DynamicImage::ImageRgb8(grey), &device).unwrap();
    let values = t.flatten_all().unwrap().to_vec1::<f32>().unwrap();
    let expected = (128.0f32 / 255.0 - 0.5) / 0.5;
    for v in &values {
        assert!((*v - expected).abs() < 1e-5);
    }
}

#[test]
fn undecodable_image_fails_the_request_with_preprocess_error() {
    let mut p = OcrPipeline {
        device: Device::Cpu,
        trocr: Some(tiny_trocr(2)),
        phi3: None,
    };
    let r = p.process_image("/no/such/dir/missing.png");
    assert!(matches!(
        r,
        Err(ProcessError::Preprocess(PreprocessError::Undecodable))
    ));
}

#[test]
fn stage1_only_request_reports_raw_extraction() {
    let mut p = OcrPipeline {
        device: Device::Cpu,
        trocr: Some(tiny_trocr(7)),
        phi3: None,
    };
    let img = image::DynamicImage::new_rgb8(1000, 600);
    let res = p.process_decoded(&img).unwrap();
    assert_eq!(res.status, "success");
    assert!(!res.raw_text.is_empty());
    assert_eq!(res.cleaned_text, res.raw_text);
    assert_eq!(res.accuracy_level, "raw extraction");
    assert_eq!(res.engine, "Candle Pure Rust (Two-Stage Pipeline)");
}

#[test]
fn vision_decode_keeps_step_budget_and_decodes_tokens() {
    let mut bundle = tiny_trocr(7);
    let device = Device::Cpu;
    let img = image::DynamicImage::new_rgb8(384, 384);
    let tensor = preprocess(&img, &device).unwrap();
    let text = bundle.extract_text(&device, &tensor).unwrap();
    // The zero-weight model always scores token 0 highest, which the
    // vocabulary decodes as "hello"; with no end-of-sequence token in
    // sight the loop must run its full budget of 128 steps.
    assert_eq!(text, "hello".repeat(128));
}

#[test]
fn ill_shaped_tensor_fails_the_vision_stage() {
    let mut bundle = tiny_trocr(2);
    let device = Device::Cpu;
    let bad = candle_core::Tensor::zeros((2, 2), DType::F32, &device).unwrap();
    let r = bundle.extract_text(&device, &bad);
    assert!(matches!(r, Err(InferError::Forward)));
}

#[test]
fn eos_at_first_step_short_circuits_decoding() {
    // Token 0 is the model's constant pick; making it the end-of-sequence
    // token must stop the loop before anything is kept.
    let mut bundle = tiny_trocr(0);
    let device = Device::Cpu;
    let img = image::DynamicImage::new_rgb8(384, 384);
    let tensor = preprocess(&img, &device).unwrap();
    let text = bundle.extract_text(&device, &tensor).unwrap();
    assert_eq!(text, "");
}
