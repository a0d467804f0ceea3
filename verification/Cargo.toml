[package]
name = "lsdj_ripper"
version = "0.1.0"
edition = "2021"
publish = false

[dependencies]
lsdj = "=0.1.1"
wavers = "*"
clap = "*"
png = "*"
