[package]
name = "graceful_shutdown"
version = "0.2.0"
edition = "2021"
publish = false

[dependencies]
async-io = "1"
futures-core = "0.3"
pin-project-lite = "0.2"
tokio = { version = "1", features = ["sync", "time"] }

[dev-dependencies]
futures-task = "0.3"
