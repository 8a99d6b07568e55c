[package]
name = "target_spec"
version = "0.1.0"
edition = "2021"
publish = false

[dependencies]
cfg-expr = { version = "=0.8.1", features = ["targets"] }
target-lexicon = { version = "=0.12.16", features = ["std"] }
