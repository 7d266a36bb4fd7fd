[package]
name = "mycqu_gateway"
version = "0.1.0"
edition = "2021"
publish = false

[dependencies]
chrono = "=0.4.45"
dashmap = "=6.2.1"
rand = "=0.9.5"
reqwest = { version = "=0.13.5", features = ["json"] }
rsmycqu = { version = "=0.4.4", features = ["card"] }
serde = { version = "=1.0.229", features = ["derive"] }
tokio = { version = "=1.54.1", features = ["full"] }
tonic = "=0.14.6"
tracing = "=0.1.44"
