[package]
name = "codec_bench"
version = "0.1.0"
edition = "2021"
publish = false

[dependencies]
flate2 = "*"
libdeflater = "*"
lz4 = "*"
lz4_flex = "*"
lzma-rs = "*"
miniz_oxide = "*"
snap = "*"
xz2 = { version = "*", features = ["static"] }
zstd = "*"
