[package]
name = "natural_earth_basemap"
version = "0.1.0"
edition = "2021"
publish = false

[dependencies]
svg = "*"
shapefile = "*"
clap = { version = "*", features = ["derive"] }
geo = "*"
rustc-hash = "*"
image = "*"
resvg = "*"
tiny-skia = "*"
