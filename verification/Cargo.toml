[package]
name = "ambient_dashboard"
version = "0.1.0"
edition = "2021"
publish = false

[dependencies]
chrono = "0.4"
dotenvy = "*"
fern = "*"
log = "0.4"
reqwest = { version = "*", features = ["json"] }
serde = { version = "1", features = ["derive"] }
tokio = { version = "1", features = ["rt", "net", "time"] }
