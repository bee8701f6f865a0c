[package]
name = "hil_orchestrator"
version = "0.1.0"
edition = "2021"
publish = false

[dependencies]
colored = "2"
libc = "0.2"
serde = { version = "1", features = ["derive"] }
tokio = { version = "1", features = ["full"] }
warp = "0.3"
