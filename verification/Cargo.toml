[package]
name = "mycelium"
version = "0.1.0"
edition = "2021"
publish = false

[dependencies]
clap = { version = "4", features = ["derive"] }
futures = "0.3"
log = "0.4"
network-interface = "1"
quinn = "0.10"
rcgen = "0.12"
rustls = { version = "0.21", features = ["dangerous_configuration", "quic"] }
tokio = { version = "1", features = ["macros", "net", "rt-multi-thread", "sync", "time"] }
