[package]
name = "monitrous"
version = "0.1.0"
edition = "2021"
publish = false

[dependencies]
clap = { version = "=4.6.7", features = ["derive"] }
dssim = "=3.5.1"
headless_chrome = "=0.9.0"
image = "=0.20.1"
imagesize = "=0.15.0"
indicatif = "=0.18.6"
lcs-image-diff = { version = "=0.1.7", default-features = false }
png = "=0.17.16"

[dev-dependencies]
rgb = "=0.8.53"
