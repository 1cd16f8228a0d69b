[package]
name = "ui_states"
version = "0.1.0"
edition = "2021"
publish = false

[dependencies]
chrono = { version = "0.4", default-features = false, features = ["clock"] }
egui = { version = "*", default-features = false }
lazy_async_promise = { version = "*" }

[dev-dependencies]
tokio = { version = "1", features = ["rt"] }
