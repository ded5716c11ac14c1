[package]
name = "timez"
version = "0.1.0"
edition = "2021"
publish = false

[dependencies]
chrono = "=0.4.45"
serde = { version = "=1.0.229", features = ["derive"] }
serde_json = "=1.0.154"
ureq = { version = "=2.12.1", features = ["json"] }
open = "=5.4.5"
dbus = { version = "=0.9.12", features = ["vendored"] }
