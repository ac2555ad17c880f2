[package]
name = "minecraft_quic_proxy"
version = "0.1.0"
edition = "2021"
publish = false

[dependencies]
aes = "=0.8.4"
cfb8 = "=0.8.1"
flate2 = "=1.1.10"
zstd = { version = "=0.13.3", features = ["experimental"] }
argon2 = "=0.5.3"
tokio = { version = "1", features = ["full"] }
quinn = "=0.10.2"
rustls = "=0.21.12"
rustls-pemfile = "2"
rcgen = "=0.11.3"
clap = { version = "4", features = ["derive"] }
tracing = "0.1"
tracing-subscriber = "0.3"
flume = "0.11"
futures = "0.3"
anyhow = "1"
