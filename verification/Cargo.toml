[package]
name = "configsync"
version = "0.1.0"
edition = "2021"
publish = false

[dependencies]
age = "=0.10.1"
anyhow = "=1.0.104"
chrono = "=0.4.45"
clap = { version = "=4.6.7", features = ["derive"] }
directories = "=5.0.1"
git2 = "=0.21.0"
notify-debouncer-mini = "=0.7.0"
secrecy = "=0.8.0"
serde = { version = "=1.0.229", features = ["derive"] }
shellexpand = "=3.1.2"
toml = "=1.1.8"

[dev-dependencies]
tempfile = "=3.27.0"
