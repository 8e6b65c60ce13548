[package]
name = "threefa_core"
version = "0.1.0"
edition = "2021"
publish = false

[dependencies]
arboard = { version = "=3.7.0", default-features = false }
rfd = { version = "0.17", default-features = false, features = ["xdg-portal"] }
serde = "=1.0.229"
serde_json = "=1.0.154"
slint = { version = "=1.18.1", default-features = false, features = ["std", "compat-1-2"] }
zeroize = "=1.9.1"
