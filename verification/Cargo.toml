[package]
name = "telemetry_overlay"
version = "0.1.0"
edition = "2021"
publish = false

[dependencies]
anyhow = "1"
csv = "1"
lexopt = "*"
sailfish = "*"
sdl2 = { version = "*", features = ["gfx", "ttf"] }
serde = { version = "1", features = ["derive"] }
serde_derive = "1"
serde_json = "1"
zip = { version = "*", default-features = false, features = ["deflate"] }
