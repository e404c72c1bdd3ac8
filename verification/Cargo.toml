[package]
name = "proxy"
version = "0.1.0"
edition = "2021"
publish = false

[dependencies]
anyhow = "*"
chrono = "=0.4.45"
clap = "*"
ctrlc = "*"
dirs = "*"
env_logger = "*"
futures = "*"
hex = "=0.4.3"
k8s-openapi = { version = "=0.27.1", features = ["latest"] }
kube = { version = "*", features = ["client", "ws"] }
libc = "*"
libloading = "*"
log = "*"
reqwest = { version = "*", features = ["json", "stream"] }
serde = { version = "*", features = ["derive"] }
serde_json = "*"
tokio = { version = "*", features = ["rt-multi-thread", "net", "io-util", "macros", "time"] }
toml = "*"
