[package]
name = "toyunda_player"
version = "0.1.0"
edition = "2021"
publish = false

[dependencies]
docopt = "1"
env_logger = "*"
gl = "*"
log = "0.4"
sdl2 = { version = "*", features = ["ttf"] }
serde = { version = "1", features = ["derive"] }
