[package]
name = "wakedev"
version = "0.1.0"
edition = "2021"
publish = false

[dependencies]
clap = { version = "4", features = ["derive"] }
libc = "0.2"
mac-notification-sys = "0.6"
serde = { version = "1", features = ["derive"] }
serde_json = "1"
thiserror = "1"
tiny_http = "0.12"
toml = "0.8"
toml_edit = "0.22"
ureq = { version = "2", default-features = false, features = ["json"] }
