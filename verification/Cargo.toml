[package]
name = "astro_build"
version = "0.1.0"
edition = "2021"
publish = false

[dependencies]
bindgen = "*"
cc = "1"
cmake = "0.1"
reqwest = { version = "0.12", features = ["blocking"] }
