[package]
name = "maplibre_native"
version = "0.1.0"
edition = "2021"
publish = false

[dependencies]
cxx = "*"
cxx-build = "*"
cmake = "*"
downloader = "*"
flate2 = "*"
tar = "*"
walkdir = "*"
