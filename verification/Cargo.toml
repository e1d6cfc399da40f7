[package]
name = "phetch"
version = "0.1.0"
edition = "2021"
publish = false

[dependencies]
termion = "=1.5.6"
atty = "=0.2.14"
