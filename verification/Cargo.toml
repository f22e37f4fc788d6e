[package]
name = "glow_post_effect"
version = "0.1.0"
edition = "2021"
publish = false

[dependencies]
godot = { version = "=0.5.5", features = ["experimental-godot-api"] }
zerocopy = { version = "=0.8.63", features = ["derive"] }
