[package]
name = "resvg-jpeg"
version = "0.1.0"
edition = "2021"
publish = false

[dependencies]
anyhow = "1"
clap = { version = "4", features = ["derive"] }
csscolorparser = "*"
image = { version = "*", default-features = false, features = ["jpeg"] }
resvg = "*"
tiny-skia = "*"
usvg = "*"
