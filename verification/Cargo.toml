[package]
name = "mullvad_watch"
version = "0.1.0"
edition = "2021"
publish = false

[dependencies]
tokio = { version = "1", features = ["macros", "rt-multi-thread", "time"] }
reqwest = { version = "0.12", default-features = false }
zbus = { version = "5", default-features = false, features = ["tokio"] }
futures-util = "0.3"
