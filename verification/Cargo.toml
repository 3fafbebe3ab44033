[package]
name = "rustdoc_index"
version = "0.1.0"
edition = "2021"
publish = false

[dependencies]
serde_json = "1"
unescape = "0.1"
tokio = { version = "1", features = ["macros", "rt-multi-thread"] }
rayon = "1"
cargo_metadata = "*"
structopt = "0.3"
