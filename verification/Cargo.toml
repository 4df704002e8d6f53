[package]
name = "sv2_ui"
version = "0.1.0"
edition = "2021"
publish = false

[dependencies]
axum = "*"
clap = { version = "*", features = ["derive"] }
http = "*"
hyper-util = { version = "*", features = ["client-legacy", "http1", "tokio"] }
mime_guess = "*"
open = "*"
rust-embed = "*"
tokio = { version = "*", features = ["macros", "net", "rt-multi-thread"] }
tower-http = { version = "*", features = ["cors"] }
tracing = "*"
tracing-subscriber = "*"

[dev-dependencies]
serde_json = "*"
