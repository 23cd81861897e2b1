[package]
name = "telegram_client"
version = "0.1.0"
edition = "2021"
publish = false

[dependencies]
eframe = { version = "0.33.3", default-features = false, features = ["default_fonts", "glow", "x11"] }
grammers-client = "0.8.1"
grammers-mtsender = "0.8.1"
grammers-session = "0.8.0"
log = "=0.4.34"
simple_logger = "=5.2.0"
tokio = { version = "=1.54.1", features = ["rt-multi-thread", "sync", "macros"] }
