[package]
name = "auxide-dsp"
version = "0.1.0"
edition = "2021"
publish = false

[dependencies]
auxide = "=0.2.1"
num-complex = "=0.4.6"
realfft = "=3.5.0"
