[package]
name = "frontend"
version = "0.1.0"
edition = "2021"
publish = false

[dependencies]
indexmap = "2"
base64 = "0.22"
serde = { version = "1", features = ["derive"] }
serde_json = "1"
uuid = { version = "1", features = ["v4", "serde"] }
url = "2"
codee = { version = "0.3", features = ["msgpack_serde"] }
reqwest = { version = "0.12", default-features = false, features = ["json"] }
