[package]
name = "adachi_cube"
version = "0.1.0"
edition = "2021"
publish = false

[dependencies]
rand = "0.8"
chrono = "0.4"
serenity = "0.12"
poise = "0.6"
influxdb = { version = "0.7", features = ["derive"] }
serde = { version = "1", features = ["derive"] }
toml = "0.8"
tokio = { version = "1", features = ["macros", "rt-multi-thread"] }
thiserror = "1"
