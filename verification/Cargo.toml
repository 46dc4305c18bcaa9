[package]
name = "carbide"
version = "0.1.0"
edition = "2021"
publish = false

[dependencies]
rustc_apfloat = "*"
uuid = { version = "=0.8.2", features = ["v4"] }
instant = "=0.1.13"
rusttype = "=0.9.3"
lyon = "=0.17.10"
cgmath = "=0.18.0"
find_folder = "=0.3.0"
env_logger = "=0.8.4"
