[package]
name = "signage_server"
version = "0.1.0"
edition = "2021"
publish = false

[dependencies]
axum = "=0.7.9"
clap = { version = "=4.6.7", features = ["derive"] }
futures = "=0.3.34"
infer = { version = "=0.22.0", default-features = false, features = ["alloc"] }
mime_guess = "=2.0.5"
serde = { version = "=1.0.229", features = ["derive"] }
serde_json = "=1.0.154"
tokio = { version = "=1.54.1", features = ["macros", "net", "rt", "rt-multi-thread", "sync", "time"] }
tokio-stream = "=0.1.19"
tower-http = { version = "=0.5.2", features = ["fs"] }
