[package]
name = "references"
version = "0.1.0"
edition = "2021"
publish = false

[dependencies]
anyhow = "=1.0.104"
# Not used directly: swc_common reads the private module of serde, which later versions renamed.
serde = "=1.0.219"
swc_common = "=0.33.26"
swc_ecmascript = { version = "=0.240.1", features = ["visit"] }
