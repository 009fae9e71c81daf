[package]
name = "soul_bomb_monster_hunt"
version = "0.3.1"
edition = "2021"
publish = false

[dependencies]
rand = "0.8"
bevy = { version = "0.14", default-features = false }
