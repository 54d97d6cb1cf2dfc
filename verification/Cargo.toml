[package]
name = "fasternet_client"
version = "0.1.0"
edition = "2021"
publish = false

[dependencies]
gleam = "=0.15.1"
glutin = "=0.19.0"
webrender = "=0.70.0"
