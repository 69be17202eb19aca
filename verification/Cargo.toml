[package]
name = "easi_publish"
version = "0.1.0"
edition = "2021"
publish = false

[dependencies]
typst = "=0.15.1"
typst-pdf = "=0.15.1"
typst-html = "=0.15.1"
typst-layout = "=0.15.1"
typst-kit = { version = "=0.15.1", default-features = false, features = ["embedded-fonts", "scan-fonts"] }
comemo = "=0.5.1"
chrono = { version = "=0.4.45", default-features = false, features = ["clock", "std"] }
serde = "=1.0.229"
serde_json = "=1.0.154"
thiserror = "=2.0.21"
image = { version = "=0.25.10", default-features = false, features = ["png", "jpeg"] }
axum = { version = "=0.8.9", default-features = false }
http = "=1.5.0"
tokio = { version = "=1.54.1", features = ["rt", "sync", "time"] }
tracing = "=0.1.44"
