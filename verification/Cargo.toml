[package]
name = "ldap_codec"
version = "0.1.0"
edition = "2021"
publish = false

[dependencies]
bytes = "1"
lber = "0.3"
tokio = { version = "1", default-features = false, features = ["sync"] }
tokio-util = { version = "0.7", default-features = false, features = ["codec"] }
