[package]
name = "bluepair"
version = "0.1.0"
edition = "2021"
publish = false

[dependencies]
indexmap = "=2.14.2"
bluer = { version = "=0.17.4", features = ["bluetoothd"] }
color-eyre = "=0.6.5"
crossterm = { version = "=0.29.0", features = ["event-stream"] }
dbus = { version = "=0.9.12", features = ["vendored"] }
futures = "=0.3.34"
ratatui = "=0.30.2"
tokio = { version = "=1.54.1", features = ["full"] }
tracing = "=0.1.44"
tracing-subscriber = { version = "=0.3.23", features = ["env-filter"] }
tui-popup = "=0.7.7"
