[package]
name = "lqos_xdp"
version = "0.1.0"
edition = "2021"
publish = false

[dependencies]
allocative = "0.3"
anyhow = "1"
libxdp-sys = "0.2.4"
serde = { version = "1", features = ["derive"] }
tracing = "0.1"

[dev-dependencies]
toml = "0.8"
