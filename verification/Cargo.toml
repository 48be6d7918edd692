[package]
name = "chatline"
version = "0.1.0"
edition = "2021"
publish = false

[dependencies]
chrono = "=0.4.45"
clap = "=2.34.0"
crossbeam-utils = "=0.7.2"
failure = "=0.1.8"
icb = "=0.2.2"
termion = "=1.5.6"
tui = "0.8"
unicode-width = "=0.1.14"
