[package]
name = "smartcropper"
version = "0.1.0"
edition = "2021"
publish = false

[dependencies]
clap = { version = "=3.2.25", features = ["derive"] }
image = { version = "=0.25.10", default-features = false, features = ["jpeg", "png"] }
num-traits = "=0.2.19"
rustface = "=0.1.7"
