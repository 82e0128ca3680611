[package]
name = "railsup"
version = "0.1.0"
edition = "2021"
publish = false

[dependencies]
anyhow = "1"
clap = { version = "4", features = ["derive"] }
ctrlc = "3"
dirs = "5"
flate2 = "1"
indicatif = "0.17"
libc = "0.2"
serde = { version = "1", features = ["derive"] }
serde_json = "1"
sha2 = "0.10"
tar = "0.4"
thiserror = "1"
toml = "0.8"
ureq = "2"
which = "6"

[dev-dependencies]
tempfile = "3"
