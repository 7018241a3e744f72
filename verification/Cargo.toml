[package]
name = "spawn_groups"
version = "0.1.0"
edition = "2021"
publish = false

[dependencies]
futures-lite = "*"
async-lock = "*"
