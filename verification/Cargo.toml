[package]
name = "mpv_web_client"
version = "0.1.0"
edition = "2021"
publish = false

[dependencies]
flate2 = "1"
tar = "0.4"
mime_guess = "2"
route-recognizer = "0.3"
toml = "*"
serde_json = "1"
rand = "0.9"
serde = { version = "1", features = ["derive"] }
clap = { version = "4", features = ["derive"] }
fern = "*"
futures = "0.3"
http-body-util = "0.1"
humantime = "2"
hyper = { version = "1", features = ["full"] }
hyper-util = { version = "0.1", features = ["full"] }
log = "0.4"
nix = { version = "*", features = ["signal", "net"] }
reqwest = "*"
tokio = { version = "1", features = ["full"] }
tokio-util = { version = "0.7", features = ["io"] }
walkdir = "2"
