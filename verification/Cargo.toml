[package]
name = "fft_core"
version = "0.1.0"
edition = "2021"
publish = false

[dependencies]
num-complex = "=0.4.6"
num-traits = "=0.2.19"
crossbeam-channel = "=0.5.17"
anyhow = "=1.0.104"
cpal = "*"
