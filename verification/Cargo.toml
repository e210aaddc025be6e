[package]
name = "ocr_pipeline"
version = "0.1.0"
edition = "2021"
publish = false

[dependencies]
anyhow = "=1.0.104"
candle-core = "=0.9.2"
candle-nn = "=0.9.2"
candle-transformers = "=0.9.2"
hf-hub = "=0.3.2"
image = { version = "=0.25.10", default-features = false, features = ["jpeg", "png", "gif", "webp", "bmp"] }
serde_json = "=1.0.151"
tokenizers = { version = "=0.21.4", default-features = false, features = ["onig"] }
tokio = { version = "=1.53.2", features = ["rt-multi-thread", "macros", "sync"] }
