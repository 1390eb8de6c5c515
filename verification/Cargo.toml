[package]
name = "unpacker"
version = "0.1.0"
edition = "2021"
publish = false

[dependencies]
bzip2 = "0.4"
flate2 = "1"
fs-err = "2"
lz4_flex = "0.11"
sevenz-rust = { version = "0.5", features = ["compress"] }
snap = "1"
tar = "0.4"
tempfile = "3"
xz2 = "0.1"
zip = { version = "0.6", default-features = false, features = ["deflate", "time"] }
zstd = { version = "0.13", default-features = false }
