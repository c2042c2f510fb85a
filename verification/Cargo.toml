[package]
name = "forum"
version = "0.1.0"
edition = "2021"
publish = false

[dependencies]
frame-support = "=2.0.0"
frame-system = "=2.0.0"
pallet-timestamp = "=2.0.0"
parity-scale-codec = { version = "1.3", features = ["derive"] }
serde = { version = "1.0", features = ["derive"] }
sp-arithmetic = "=2.0.0"
sp-io = "=2.0.0"
sp-runtime = "=2.0.0"
sp-std = "=2.0.0"
