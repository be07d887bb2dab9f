[package]
name = "midi_cv"
version = "0.1.0"
edition = "2021"
publish = false

[dependencies]
fixed = "*"
cordic = "*"
