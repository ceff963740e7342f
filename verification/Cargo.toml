[package]
name = "dash_shielded"
version = "0.1.0"
edition = "2021"
publish = false

[dependencies]
bech32 = "0.11.1"
bip0039 = "0.12.0"
hex = "0.4.3"
json = "0.12.4"
once_cell = "1.21"
orchard = { version = "0.14.0", default-features = false, features = ["std"] }
reqwest = { version = "0.12", default-features = false, features = ["rustls-tls"] }
tokio = { version = "1.48", features = ["sync", "time", "rt"] }
zip32 = "0.2.1"
