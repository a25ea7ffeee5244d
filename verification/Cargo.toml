[package]
name = "yabusame"
version = "0.1.0"
edition = "2021"
publish = false

[dependencies]
anyhow = "=1.0.104"
argh = "=0.1.19"
axum = "=0.8.9"
axum-macros = "=0.5.1"
comfy-table = "=8.0.1"
deadpool = "=0.13.1"
notify = "=8.2.0"
rusqlite = "=0.40.2"
serde = { version = "=1.0.229", features = ["derive"] }
serde_json = { version = "=1.0.154", features = ["preserve_order"] }
tera = "=1.20.1"
thiserror = "=1.0.69"
time = { version = "=0.3.55", features = ["serde", "formatting", "parsing"] }
tokio = { version = "=1.54.1", features = ["full"] }
tower-http = { version = "=0.7.1", features = ["fs"] }
tz-rs = "=0.6.14"
url = "=2.5.8"
