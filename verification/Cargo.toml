[package]
name = "moxen"
version = "0.1.0"
edition = "2021"
publish = false

[dependencies]
anyhow = "*"
base64 = "*"
clap = { version = "*", features = ["derive"] }
dirs = "*"
flate2 = "*"
git2 = "*"
glob = "*"
hex = "*"
reqwest = { version = "*", default-features = false, features = ["json", "rustls-tls"] }
ring = "*"
rustrict = "*"
serde = { version = "*", features = ["derive"] }
sha1 = "*"
tar = "*"
tokio = { version = "*", features = ["macros", "rt-multi-thread", "sync"] }
toml = "*"
