[package]
name = "fairy_lantern"
version = "0.1.0"
edition = "2021"
publish = false

[dependencies]
anyhow = "1"
clap = { version = "4", features = ["derive"] }
libc = "0.2"
minifb = "*"
zip = { version = "2", default-features = false, features = ["deflate"] }
