[package]
name = "ssh_core"
version = "0.1.0"
edition = "2021"
publish = false

[dependencies]
russh = "0.49"
secrecy = "=0.8.0"
ssh-key = "=0.6.7"
tokio = { version = "=1.54.1", features = ["sync", "time"] }

[dev-dependencies]
base64 = "=0.22.1"
sha2 = "=0.10.9"
