[package]
name = "real_live_wall"
version = "1.2.0"
edition = "2021"
publish = false

[dependencies]
png = "*"
anyhow = "1"
log = "0.4"
env_logger = "*"
clap = { version = "4", features = ["derive"] }
serde = { version = "1", features = ["derive"] }
serde_json = "1"
toml = "*"
ureq = "3"
zip = { version = "*", default-features = false, features = ["deflate"] }
rustfft = "6"
