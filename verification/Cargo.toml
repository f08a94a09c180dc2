[package]
name = "docker_archives"
version = "0.1.0"
edition = "2021"
publish = false

[dependencies]
anyhow = "*"
skim = "*"
