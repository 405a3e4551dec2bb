[package]
name = "proton_cli"
version = "0.1.0"
edition = "2021"
publish = false

[dependencies]
docopt = "1"
git2 = { version = "*", default-features = false }
openssl = "0.10"
postgres = "0.19"
rustc-serialize = "0.3"
serde = { version = "1", features = ["derive"] }
sfml = "*"
