[package]
name = "pd200x"
version = "0.2.0"
edition = "2021"
publish = false

[dependencies]
hidapi = { version = "=2.6.7", default-features = false, features = ["linux-native-basic-udev"] }
thiserror = "=2.0.21"
