[package]
name = "keystore"
version = "0.1.0"
edition = "2021"
publish = false

[dependencies]
keyring = { version = "=3.6.3", default-features = false, features = ["linux-native"] }
log = "=0.4.34"
thiserror = "=2.0.21"
