[package]
name = "whisper-rs-cli"
version = "0.1.0"
edition = "2021"
publish = false

[dependencies]
anyhow = "=1.0.104"
clap = { version = "=4.6.7", features = ["derive"] }
clap-verbosity-flag = "=3.0.4"
dirs = "=7.0.0"
hound = "=3.5.1"
indicatif = "=0.18.6"
owo-colors = "=4.4.0"
reqwest = { version = "=0.13.5", features = ["blocking"] }
rubato = "=0.16.2"
tempfile = "=3.27.0"
thiserror = "=2.0.21"
whisper-rs = "=0.14.4"
