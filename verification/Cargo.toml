[package]
name = "cotp"
version = "0.1.0"
edition = "2021"
publish = false

[dependencies]
sodiumoxide = "0.2"
hmac = "0.12"
sha1 = "0.10"
sha2 = "0.10"
data-encoding = "2"
zeroize = "1"
serde = { version = "1", features = ["derive"] }
serde_json = "1"
clap = "3"
dirs = "4"
tui = "0.19"
