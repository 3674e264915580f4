[package]
name = "rewrite-it"
version = "0.1.0"
edition = "2021"
publish = false

[dependencies]
anyhow = "=1.0.104"
clap = { version = "=4.6.7", features = ["derive"] }
dirs = "=5.0.1"
encoding_rs = "=0.8.44"
hf-hub = { version = "=0.4.3", default-features = false, features = ["tokio", "rustls-tls"] }
llama-cpp-2 = "=0.1.140"
sd-notify = "=0.4.5"
serde = { version = "=1.0.229", features = ["derive"] }
tokio = { version = "=1.54.1", features = ["full"] }
toml = "=0.8.23"
tracing = "=0.1.44"
tracing-subscriber = { version = "=0.3.23", features = ["env-filter"] }
uuid = { version = "=1.29.0", features = ["v4"] }
zbus = { version = "=4.4.0", default-features = false, features = ["tokio"] }
