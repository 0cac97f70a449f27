[package]
name = "iron_heart"
version = "0.1.0"
edition = "2021"
publish = false

[dependencies]
rosc = "0.10"
serde = { version = "1", features = ["derive"] }
serde_json = "1"
tokio = { version = "1", features = ["full"] }
tokio-util = "0.7"
tokio-websockets = { version = "*", features = ["server", "sha1_smol"] }
futures-util = { version = "0.3", features = ["sink"] }
log = "0.4"
config = { version = "*", default-features = false, features = ["toml"] }
toml = "*"
ratatui = "*"
crossterm = "*"
color-eyre = "0.6"
tracing = "0.1"
human-panic = "*"
better-panic = "*"
strip-ansi-escapes = "*"
libc = "0.2"
