[package]
name = "ssher"
version = "0.1.0"
edition = "2021"
publish = false

[dependencies]
anyhow = "=1.0.104"
base64 = "=0.22.1"
clap = { version = "=4.6.7", features = ["derive"] }
clap_complete = { version = "=4.6.11", features = ["unstable-dynamic"] }
console = "=0.15.11"
crossterm = "=0.28.1"
dialoguer = "=0.11.0"
russh = "=0.60.3"
serde = { version = "=1.0.229", features = ["derive"] }
serde_yaml = "=0.9.34"
shellexpand = "=3.1.2"
sshconfig = "*"
tabled = "=0.22.0"
tokio = { version = "=1.54.1", features = ["full"] }
trust-dns-resolver = "=0.23.2"
