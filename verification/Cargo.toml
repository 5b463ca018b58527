[package]
name = "app_shell"
version = "1.0.0"
edition = "2021"
publish = false

[dependencies]
open = "*"
