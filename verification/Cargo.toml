[package]
name = "neon_blue"
version = "0.1.0"
edition = "2021"
publish = false

[dependencies]
itertools = "0.14"
rand = "0.9"
serde = { version = "1", features = ["derive"] }
log = "0.4"
dyn-clone = "1"
image = { version = "0.25", default-features = false }
