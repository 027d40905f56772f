[package]
name = "archivindex"
version = "0.1.0"
edition = "2021"
publish = false

[dependencies]
bounded-static = "*"
cargo_metadata = "*"
clap = { version = "4", features = ["derive"] }
ctrlc = "*"
data-encoding = "2"
indicatif = "*"
log = "0.4"
proptest = "*"
serde = { version = "1", features = ["derive"] }
serde_json = "1"
simplelog = "*"
tempfile = "3"
thiserror = "*"
toml = "*"
toml_edit = "*"
