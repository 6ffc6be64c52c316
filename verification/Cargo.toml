[package]
name = "wasm_signals"
version = "0.1.0"
edition = "2021"
publish = false

[dependencies]
libc = "0.2"
rustix = { version = "0.38", features = ["mm", "param"] }
cfg-if = "1.0"
