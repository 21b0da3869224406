[package]
name = "game_of_life"
version = "0.1.0"
edition = "2021"
publish = false

[dependencies]
rand = "0.8"
rand_chacha = "0.3"
wgpu = "22"
pollster = "0.3"
bytemuck = "1"
