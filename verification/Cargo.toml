[package]
name = "minilogue-xd"
version = "0.1.0"
edition = "2021"
publish = false

[dependencies]
crc32fast = "1"
midir = "0.10"
thiserror = "2"
zip = { version = "2", default-features = false, features = ["deflate"] }
