[package]
name = "space_gm"
version = "0.1.0"
edition = "2021"
publish = false

[dependencies]
bevy = { version = "=0.15.3", default-features = false }
bevy_mod_scripting = { version = "=0.11.1", default-features = false, features = ["luau"] }
