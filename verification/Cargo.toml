[package]
name = "ccf_checker"
version = "0.1.0"
edition = "2021"
publish = false

[dependencies]
regex = "*"
md5 = "*"
csv = "*"
chrono = { version = "*", features = ["serde"] }
serde = { version = "*", features = ["derive"] }
serde_json = "*"
sdl2 = { version = "*", features = ["ttf"] }
