[package]
name = "dryer_control"
version = "0.1.0"
edition = "2021"
publish = false

[dependencies]
anyhow = "1"
chrono = "0.4"
crossbeam-channel = "0.5"
dotenv_codegen = "*"
embedded-hal = "1"
embedded-svc = "*"
esp-idf-hal = "*"
esp-idf-svc = "*"
log = "0.4"
onewire = "*"
serde = { version = "1", features = ["derive"] }
serde_json = "1"
uuid = { version = "1", features = ["v4"] }
