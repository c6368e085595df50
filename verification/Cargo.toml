[package]
name = "tajagi"
version = "0.1.0"
edition = "2021"
publish = false

[dependencies]
keyring = { version = "=3.6.3", features = ["linux-native"] }
serde = { version = "1", features = ["derive"] }
futures-util = "0.3"
log = "0.4"
specta = { version = "=2.0.0-rc.22", features = ["derive"] }
