[package]
name = "shortcutd"
version = "0.1.0"
edition = "2021"
publish = false

[dependencies]
evdev = "0.12"
futures = "0.3"
glob = "0.3"
main_error = "0.1"
tokio = { version = "1", features = ["rt-multi-thread", "macros", "time"] }
tracing = "0.1"
tracing-subscriber = "0.3"
zbus = { version = "3", default-features = false, features = ["tokio"] }
