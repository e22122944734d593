[package]
name = "auto_commit"
version = "0.1.0"
edition = "2021"
publish = false

[dependencies]
anyhow = "=1.0.104"
clap = { version = "=4.6.7", features = ["derive", "env"] }
daemonize = "=0.5.0"
git2 = "=0.21.0"
gix = "=0.88.0"
jiff = "=0.2.38"
serde = { version = "=1.0.229", features = ["derive"] }
serde_json = "=1.0.151"
toml = "=1.1.7"

[dev-dependencies]
tempfile = "=3.27.0"
