[package]
name = "somebuild"
version = "0.1.0"
edition = "2021"
publish = false

[dependencies]
blake3 = "*"
run_script = "*"
url = "*"
async-compression = { version = "*", features = ["tokio", "zstd", "xz", "gzip", "bzip2"] }
clap = { version = "*", features = ["derive"] }
env_logger = "*"
indicatif = "*"
indicatif-log-bridge = "*"
log = "*"
reqwest = { version = "*", default-features = false, features = ["stream"] }
serde = { version = "*", features = ["derive"] }
tokio = { version = "*", features = ["full"] }
tokio-stream = "*"
tokio-tar = "*"
tokio-util = { version = "*", features = ["io"] }
toml = "*"
