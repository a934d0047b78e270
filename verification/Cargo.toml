[package]
name = "edxlc"
version = "0.1.0"
edition = "2021"
publish = false

[dependencies]
ctrlc = "3"
dirs = "3"
env_logger = "0.8"
glob = "0.3"
hotwatch = "0.4"
libc = "0.2"
libloading = "0.7"
log = "0.4"
serde = { version = "1", features = ["derive"] }
serde_json = "1"
serde-xml-rs = "0.4"
toml = "0.5"
winapi = { version = "0.3", features = ["minwindef", "winnt"] }
winreg = "0.10"
