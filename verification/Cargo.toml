[package]
name = "mspdebug_embedded"
version = "0.1.0"
edition = "2021"
publish = false

[dependencies]
clap = { version = "4", features = ["derive"] }
command-group = "*"
ctrlc = "3"
elf = "0.7"
eyre = "0.6"
