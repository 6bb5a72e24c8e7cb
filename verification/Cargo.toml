[package]
name = "fubuki"
version = "0.1.0"
edition = "2021"
publish = false

[dependencies]
anyhow = "=1.0.104"
chrono = "=0.4.45"
iced = { version = "=0.2.0", default-features = false, features = ["wgpu", "image", "tokio_old"] }
image = { version = "=0.23.14", default-features = false, features = ["png", "jpeg"] }
log = "=0.4.34"
log4rs = { version = "0.13", default-features = false, features = ["console_appender", "file_appender", "json_encoder"] }
once_cell = "=1.21.4"
open = "=1.7.1"
regex = "=1.13.1"
reqwest = { version = "=0.10.10", default-features = false, features = ["json", "rustls-tls"] }
serde = { version = "=1.0.229", features = ["derive"] }
serde_json = "=1.0.154"
strsim = "=0.10.0"
tokio = { version = "=0.2.25", features = ["time"] }
url = "=2.5.8"
winapi = { version = "=0.3.9", features = ["winuser"] }
wmctrl = "=0.1.8"
