[package]
name = "clip-vault"
version = "0.1.0"
edition = "2021"
publish = false

[dependencies]
aes-gcm = "0.10"
argon2 = "0.5"
chrono = { version = "0.4", features = ["serde"] }
ciborium = "0.2"
directories = "*"
rand_core = { version = "0.6", features = ["getrandom"] }
rusqlite = { version = "*", features = ["bundled"] }
rusqlite_migration = "*"
secrecy = "0.10"
serde = { version = "1", features = ["derive"] }
serde_json = "1"
serde_with = "3"
thiserror = "2"
uuid = { version = "1", features = ["v7", "serde"] }
zeroize = "1"
