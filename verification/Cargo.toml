[package]
name = "zero2axum"
version = "0.1.0"
edition = "2021"
publish = false

[dependencies]
anyhow = "1"
argon2 = "0.5"
axum = "0.6"
axum-macros = "0.3"
base64 = "0.21"
color-eyre = "0.6"
config = { version = "0.13", default-features = false, features = ["yaml"] }
futures-core = "0.3"
hyper = { version = "0.14", features = ["server", "tcp", "http1"] }
rand = "0.8"
reqwest = { version = "0.11", default-features = false, features = ["json", "rustls-tls"] }
secrecy = { version = "0.8", features = ["serde"] }
serde = { version = "1", features = ["derive"] }
serde-aux = "4"
thiserror = "1"
tokio = { version = "1", features = ["macros", "rt-multi-thread", "signal"] }
tower-cookies = { version = "0.9", features = ["private"] }
tower-http = { version = "0.4", features = ["trace"] }
tracing = "0.1"
tracing-bunyan-formatter = "0.3"
tracing-log = "0.1"
tracing-subscriber = { version = "0.3", features = ["registry", "env-filter"] }
unicode-segmentation = "1"
uuid = { version = "1", features = ["v4"] }
