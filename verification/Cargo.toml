[package]
name = "aero_arb_mm_bot"
version = "0.5.0"
edition = "2021"
publish = false

[dependencies]
chrono = "*"
uuid = { version = "*", features = ["v4"] }
rand = "0.8"
tokio = { version = "*", default-features = false, features = ["macros", "rt-multi-thread", "time", "signal", "sync"] }
reqwest = { version = "*", default-features = false, features = ["json"] }
serde = { version = "*", features = ["derive"] }
serde_json = "*"
anyhow = "*"
