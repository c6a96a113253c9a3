[package]
name = "pa_visualizer"
version = "0.1.0"
edition = "2021"
publish = false

[dependencies]
toml = "=0.4.10"
rb = "=0.3.2"
dft = "=0.5.5"
hound = "=3.5.1"
pulse-simple = "=1.0.1"
log = "=0.4.35"
pretty_env_logger = "=0.2.5"
rand = "=0.4.6"
sfml = "0.13"
cpython = "0.1"
