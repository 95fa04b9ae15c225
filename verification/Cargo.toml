[package]
name = "humanode_distribution"
version = "0.1.0"
edition = "2021"
publish = false

[dependencies]
bytes = "1"
clap = { version = "4", features = ["derive"] }
color-eyre = "0.6"
dirs = "5"
eyre = "0.6"
futures = "0.3"
hex = "0.4"
libc = "0.2"
reqwest = { version = "0.12", default-features = false, features = ["rustls-tls"] }
serde = { version = "1", features = ["derive"] }
serde_json = "1"
serde_yaml_bw = "*"
sha2 = "0.10"
thiserror = "1"
tokio = { version = "1", features = ["fs", "io-util", "macros", "rt-multi-thread"] }
tracing-subscriber = "0.3"
url = "2"
