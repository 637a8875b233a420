[package]
name = "captura"
version = "0.1.0"
edition = "2021"
publish = false

[dependencies]
base64 = "0.22"
image = { version = "0.25", default-features = false, features = ["png", "jpeg", "webp", "avif"] }
log = "0.4"
thiserror = "2"
tokio = { version = "1", features = ["rt", "rt-multi-thread"] }
napi = { version = "3", default-features = false, features = ["napi4", "async"] }
napi-derive = "3"
xcap = "0.9"
