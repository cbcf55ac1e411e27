[package]
name = "biograf"
version = "0.1.0"
edition = "2021"
publish = false

[dependencies]
dialoguer = "0.11"
fern = "0.6"
google-youtube3 = "5"
lazy_static = "1"
log = "0.4"
serde_json = "1"
tokio = { version = "1", features = ["macros", "rt-multi-thread"] }
