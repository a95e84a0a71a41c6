[package]
name = "triad-runtime"
version = "0.1.0"
edition = "2021"
publish = false

[dependencies]
kameo = "*"
rkyv = "0.8"
rustix = { version = "*", features = ["net"] }
thiserror = "2"
tokio = { version = "1", features = ["net", "rt", "rt-multi-thread", "macros", "sync", "io-util", "time"] }

[dev-dependencies]
tempfile = "3"
