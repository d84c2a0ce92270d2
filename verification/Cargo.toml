[package]
name = "opus_stream"
version = "0.1.0"
edition = "2021"
publish = false

[dependencies]
audiopus = "0.2"
bitreader = "0.3"
magnum = "*"
ogg = "*"
