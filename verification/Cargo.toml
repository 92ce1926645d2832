[package]
name = "harmony"
version = "0.1.0"
edition = "2021"
publish = false

[dependencies]
rand = "=0.8.8"
ureq = { version = "2", default-features = false }
tungstenite = { version = "0.20", default-features = false, features = ["handshake"] }
mio = { version = "0.8", features = ["net", "os-poll"] }
multipart = { version = "0.18", default-features = false, features = ["client"] }
mime_guess = "2"
chrono = { version = "0.4", default-features = false, features = ["clock"] }
crossbeam-channel = "0.5"
crossbeam-utils = "0.8"
parking_lot = "0.12"
serde = "1"
serde_json = "1"
serde_repr = "0.1"
