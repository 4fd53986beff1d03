[package]
name = "test_runner"
version = "0.1.0"
edition = "2021"
publish = false

[dependencies]
ansi_term = "0.12"
clap = { version = "4", features = ["derive"] }
glob = "0.3"
indoc = "2"
log = "0.4"
log4rs = "1"
log-panics = "2"
rayon = "1"
reqwest = { version = "0.12", features = ["blocking"] }
serde = { version = "1", features = ["derive"] }
serde_json = "1"
