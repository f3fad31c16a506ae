[package]
name = "filewatch_signaler"
version = "0.1.0"
edition = "2021"
publish = false

[dependencies]
clap = { version = "4", features = ["derive", "env"] }
env_logger = "0.10"
humantime = "2"
log = "0.4"
nix = { version = "0.27", features = ["signal"] }
notify-debouncer-full = "0.3"
sysinfo = "0.29"
