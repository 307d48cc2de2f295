[package]
name = "serial2tcp"
version = "0.1.0"
edition = "2021"
publish = false

[dependencies]
rust-ini = "*"
serialport = { version = "*", default-features = false }
clap = "*"
getch = "*"
