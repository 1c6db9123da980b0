[package]
name = "sage_lir"
version = "0.1.0"
edition = "2021"
publish = false

[dependencies]
clap = { version = "4", features = ["derive"] }
codespan-reporting = "0.11"
env_logger = "0.10"
log = "0.4"
no-comment = "*"
