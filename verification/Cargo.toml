[package]
name = "intl_extract"
version = "0.1.0"
edition = "2021"
publish = false

[dependencies]
base64 = "=0.22.1"
sha2 = "=0.10.9"
rustc-hash = "=2.1.3"
serde = { version = "=1.0.229", features = ["derive"] }
serde_json = "=1.0.154"
swc_core = { version = "=82.2.0", features = ["common", "ecma_ast", "ecma_visit", "ecma_parser", "ecma_utils", "ecma_plugin_transform"] }
walkdir = "=2.5.0"
rayon = "=1.12.0"
napi = { version = "*", features = ["tokio_rt"] }
napi-derive = "*"
tokio = { version = "1", features = ["fs", "rt"] }
futures = "0.3"
