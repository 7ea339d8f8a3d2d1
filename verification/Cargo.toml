[package]
name = "bma-ts"
version = "0.1.0"
edition = "2021"
publish = false

[dependencies]
bincode = "2"
chrono = "0.4"
dateparser = "0.2"
nix = { version = "*", features = ["time"] }
serde = "1"
sqlx = { version = "0.8", default-features = false, features = ["postgres", "sqlite"] }
thiserror = "2"
time = "0.3"
