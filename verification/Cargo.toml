[package]
name = "wasmshield"
version = "0.1.0"
edition = "2021"
rust-version = "1.95"
publish = false

[dependencies]
anyhow = "=1.0.104"
cargo-audit = { version = "=0.22.2", default-features = false, features = ["binary-scanning"] }
clap = "=4.6.7"
# Not called from this crate: rustsec reaches it through gix. Held at a
# release that builds with Rust 1.95; kstring 2.0.5 asks for Rust 1.96.
kstring = "=2.0.2"
miniz_oxide = "=0.9.1"
rustsec = { version = "=0.33.0", features = ["binary-scanning"] }
serde_json = "=1.0.154"
toml = "=1.1.8"
wasmparser = "=0.262.0"
wasmsign2 = "=0.2.8"
