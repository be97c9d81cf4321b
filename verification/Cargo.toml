[package]
name = "ticos_gst"
version = "0.1.0"
edition = "2021"
publish = false

[dependencies]
async-tungstenite = { version = "0.28", features = ["tokio-runtime"] }
atomic_refcell = "0.1"
base64 = "0.22"
bincode = "1.3"
futures = "0.3"
futures-util = "0.3"
gstreamer = "0.23"
gstreamer-audio = "0.23"
http = "1"
lazy_static = "1"
libc = "0.2"
once_cell = "1"
serde = { version = "1", features = ["derive"] }
serde_json = "1"
similari = { version = "*", default-features = false }
tokio = { version = "1", features = ["full"] }
tokio-tungstenite = "0.24"
url = "2"
