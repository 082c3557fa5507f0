[package]
name = "battery_notify"
version = "0.1.0"
edition = "2021"
publish = false

[dependencies]
battery = "*"
notify-rust = "*"
structopt = "*"
