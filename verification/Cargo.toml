[package]
name = "vclip-media"
version = "0.1.0"
edition = "2021"
publish = false

[dependencies]
rand = "0.9"
nix = { version = "0.29", features = ["net"] }
serde = { version = "1", features = ["derive"] }
serde_json = "1"
tokio = { version = "1", features = ["process", "fs", "rt", "macros"] }
tracing = "0.1"
tempfile = "3"
which = "*"
