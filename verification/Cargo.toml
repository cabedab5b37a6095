[package]
name = "zeroscope"
version = "0.1.0"
edition = "2021"
publish = false

[dependencies]
anyhow = "*"
ctrlc = "*"
pipewire = "*"
libspa = "*"
cros-codecs = "*"
