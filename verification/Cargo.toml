[package]
name = "safebox_client"
version = "0.1.0"
edition = "2021"
publish = false

[dependencies]
base64 = "0.21"
hex = "0.4"
serde = { version = "1", features = ["derive"] }
serde_json = "1"
serde_urlencoded = "0.7"
tokio = { version = "1", features = ["full"] }
warp = "0.3"
futures = "0.3"
dirs = "*"
once_cell = "1"
tempfile = "3"
ctrlc = "3"
