[package]
name = "bpcon"
version = "0.1.0"
edition = "2021"
publish = false

[dependencies]
rand_chacha = "0.9"
rkyv = { version = "0.7", features = ["validation"] }
bincode = "1"
serde = { version = "1", features = ["derive"] }
log = "0.4"
tokio = { version = "1", features = ["sync", "time", "macros", "rt"] }
