[package]
name = "midimon"
version = "0.1.0"
edition = "2021"
publish = false

[dependencies]
alsa = "*"
clap = "*"
colored = "*"
libc = "*"
