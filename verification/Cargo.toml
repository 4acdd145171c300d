[package]
name = "soundbar"
version = "0.1.0"
edition = "2021"
publish = false

[dependencies]
anyhow = "1"
crossbeam = "0.8"
directories = "4"
log = "0.4"
once_cell = "1"
rodio = "=0.17.3"
serde = { version = "1", features = ["derive"] }
serde_json = "1"
simple-logging = "2"
thiserror = "1"
winapi = { version = "0.3", features = ["winuser"] }
