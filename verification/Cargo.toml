[package]
name = "isrc_resolver"
version = "0.1.0"
edition = "2021"
publish = false

[dependencies]
urlencoding = "*"
serde = { version = "*", features = ["derive"] }
serde_json = "*"
serde-aux = { version = "*", default-features = false }
reqwest = { version = "*", default-features = false, features = ["blocking", "rustls-tls"] }
dialoguer = "*"
clap = { version = "*", features = ["derive"] }
lofty = "*"
