[package]
name = "sql_monitor"
version = "0.1.0"
edition = "2021"
publish = false

[dependencies]
chrono = "0.4"
egui_extras = { version = "0.27", default-features = false }
serde = { version = "1", features = ["derive"] }
tiberius = { version = "0.12", default-features = false, features = ["tds73", "chrono", "rustls"] }
tokio = { version = "1", features = ["full"] }
tokio-util = { version = "0.7", features = ["compat"] }
toml = "0.8"
