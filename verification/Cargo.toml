[package]
name = "cobrinha"
version = "0.1.0"
edition = "2021"
publish = false

[dependencies]
rand = "0.10"
rdev = "0.5"
terminal_size = "0.4"
utilprint = "*"
once_cell = "1"
