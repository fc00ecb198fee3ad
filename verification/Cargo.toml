[package]
name = "digital_rain"
version = "0.1.0"
edition = "2021"

[dependencies]
rand = "0.8"
colored = "*"
crossterm = "*"
term_size = "*"
