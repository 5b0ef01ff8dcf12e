[package]
name = "zonewatch"
version = "0.1.0"
edition = "2021"
publish = false

[dependencies]
anyhow = "1"
dbus = { version = "0.9", features = ["vendored"] }
dbus-tokio = "0.7"
futures-channel = "0.3"
futures-util = "0.3"
reqwest = "0.11"
tokio = { version = "1", features = ["macros", "rt-multi-thread"] }
