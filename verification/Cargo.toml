[package]
name = "audio_spectrum"
version = "0.1.0"
edition = "2021"
publish = false

[dependencies]
ringbuffer = "=0.12.0"
spectrum-analyzer = "=1.2.6"
thiserror = "=1.0.69"
rayon = "1.6"
rand = "0.8"
nannou = "0.18"
nannou_egui = "0.5"
simple-pulse-desktop-capture = "*"
