[package]
name = "peekscreen"
version = "0.1.0"
edition = "2021"
publish = false

[dependencies]
image = { version = "*", default-features = false, features = ["png", "jpeg"] }
base64 = "*"
xcap = "*"
rmcp = { version = "*", features = ["server", "macros", "transport-io"] }
tokio = { version = "*", features = ["macros", "rt-multi-thread", "io-std"] }
serde = { version = "*", features = ["derive"] }
serde_json = "*"
anyhow = "*"
tracing = "*"
tracing-subscriber = { version = "*", features = ["env-filter"] }
