[package]
name = "atc_capture"
version = "0.1.0"
edition = "2021"
publish = false

[dependencies]
ringbuf = "=0.5.2"
rubato = "=0.16.2"
cpal = "=0.18.2"
