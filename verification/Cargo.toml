[package]
name = "kiri"
version = "0.1.0"
edition = "2021"
publish = false

[dependencies]
zbus = "=3.14.1"
zvariant = "=3.15.2"
nix = { version = "=0.26.4", default-features = false, features = ["socket", "uio", "user"] }
shell-words = "=1.1.1"
clap = { version = "=4.6.7", features = ["derive"] }
color-eyre = "=0.6.5"
tokio = { version = "=1.54.1", features = ["macros", "rt-multi-thread", "process", "net"] }
serde = { version = "=1.0.229", features = ["derive"] }
toml = "=0.8.23"
futures = "=0.3.34"
event-listener = "=2.5.3"
logind-zbus = "=3.1.2"
zbus_systemd = { version = "=0.0.17", features = ["systemd1"] }
tracing = { version = "=0.1.44", features = ["log"] }
pretty_env_logger = "=0.5.0"
lazy_static = "=1.5.1"
parking_lot = "=0.12.5"
