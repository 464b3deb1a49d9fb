[package]
name = "biome_tools"
version = "0.1.0"
edition = "2021"
publish = false

[dependencies]
biome_unicode_table = "=0.7.0"
git2 = { version = "=0.21.0", default-features = false }
proc-macro2 = "=1.0.107"
quote = "=1.0.47"
camino = "=1.2.6"
path-absolutize = "=4.0.1"
rayon = "=1.12.0"
