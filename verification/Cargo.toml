[package]
name = "dodge_the_creeps"
version = "0.1.0"
edition = "2021"
publish = false

[dependencies]
godot = "0.2"
rand = "0.8"
