[package]
name = "xtm_rust"
version = "0.1.0"
edition = "2021"
publish = false

[dependencies]
async-channel = "*"
crossbeam-channel = "*"
crossbeam-utils = "*"
libc = "*"
mlua = { version = "*", features = ["lua54", "vendored"] }
serde = { version = "*", features = ["derive"] }
tarantool = "*"
thiserror = "*"
tokio = { version = "*", features = ["rt", "rt-multi-thread", "sync", "net", "time"] }
