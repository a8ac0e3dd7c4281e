[package]
name = "data_rct"
version = "0.1.0"
edition = "2021"
publish = false

[dependencies]
chacha20 = "0.9"
x25519-dalek = "2"
rand_core = { version = "0.6", features = ["getrandom"] }
uuid = { version = "1", features = ["v4"] }
tokio = { version = "1", features = ["rt", "sync"] }
local-ip-address = "0.5"
thiserror = "1"

[dev-dependencies]
prost = { version = "0.12", default-features = false, features = ["std"] }
