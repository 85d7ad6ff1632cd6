[package]
name = "fspy_windows"
version = "0.1.0"
edition = "2021"
publish = false

[dependencies]
bincode = "=2.0.1"
futures-util = "=0.3.34"
tokio = { version = "=1.54.1", features = ["process", "rt", "macros"] }
tokio-util = "=0.7.20"
winapi = { version = "=0.3.9", features = ["processthreadsapi"] }
winsafe = { version = "=0.0.29", features = ["kernel"] }
xxhash-rust = { version = "=0.8.19", features = ["const_xxh3"] }
