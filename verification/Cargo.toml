[package]
name = "image_intake"
version = "0.1.0"
edition = "2021"
publish = false

[dependencies]
axum = { version = "0.6", features = ["multipart"] }
image = { version = "0.24", default-features = false, features = ["png", "jpeg"] }
time = { version = "0.3", features = ["macros"] }
tokio = { version = "1", features = ["full"] }
tower-http = { version = "0.4", features = ["fs"] }
tracing = "0.1"
tracing-subscriber = { version = "0.3", features = ["fmt", "time"] }
uuid = { version = "1", features = ["v4"] }
