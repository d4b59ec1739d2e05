[package]
name = "educhainx"
version = "0.1.0"
edition = "2021"
publish = false

[dependencies]
actix-web = "4"
chrono = { version = "0.4", features = ["serde"] }
ink = "4"
parity-scale-codec = { version = "3", features = ["derive"] }
scale-info = { version = "2", features = ["derive"] }
serde = { version = "1", features = ["derive"] }
tokio = { version = "1", features = ["time"] }
uuid = { version = "1", features = ["v4", "serde"] }
