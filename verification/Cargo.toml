[package]
name = "xenclient"
version = "0.1.0"
edition = "2021"
publish = false

[dependencies]
libc = "0.2"
nix = { version = "0.29", features = ["ioctl"] }
serde = { version = "1", features = ["derive"] }
tokio = { version = "1", features = ["sync"] }
