[package]
name = "derroche"
version = "0.1.0"
edition = "2021"
publish = false

[dependencies]
chrono = "=0.4.45"
serde_json = "=1.0.154"
rusqlite = { version = "=0.32.1", features = ["bundled"] }
directories = "=5.0.1"
reqwest = { version = "=0.12.28", default-features = false, features = ["blocking", "json", "rustls-tls"] }
iced = { version = "=0.14.0", default-features = false, features = ["tiny-skia", "x11", "thread-pool"] }
image = { version = "=0.25.10", default-features = false, features = ["png"] }
