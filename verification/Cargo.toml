[package]
name = "autopeer"
version = "0.1.0"
edition = "2021"
publish = false

[dependencies]
rusqlite = { version = "*", features = ["bundled"] }
url = "*"
base64 = "*"
serde = { version = "*", features = ["derive"] }
serde_json = "*"
toml = "*"
smol = "*"
async-h1 = "*"
async-io = "*"
futures-lite = "*"
async-channel = "*"
ctrlc = "*"
http-types = "*"
