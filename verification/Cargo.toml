[package]
name = "ic_repl"
version = "0.1.0"
edition = "2021"
publish = false

[dependencies]
anyhow = "1"
candid = { version = "0.10", features = ["value"] }
candid_parser = "*"
futures = "0.3"
hex = "0.4"
ic-wasm = { version = "*", default-features = false }
libflate = "2"
serde = { version = "1", features = ["derive"] }
serde_json = "1"
tokio = { version = "1", features = ["rt-multi-thread", "macros"] }
