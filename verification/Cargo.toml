[package]
name = "hwtop"
version = "0.1.0"
edition = "2021"
publish = false

[dependencies]
libc = "=0.2.191"
serde = { version = "=1.0.229", features = ["derive"] }
toml = "=0.8.23"

[dev-dependencies]
regex = "1"
