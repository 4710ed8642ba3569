[package]
name = "rendy-wsi"
version = "0.1.0"
edition = "2021"
publish = false

[dependencies]
gfx-hal = "0.2"
rendy-util = { version = "0.3", features = ["empty"] }
rendy-resource = "0.3"
relevant = "0.4"
failure = "0.1"
log = "0.4"
smallvec = "0.6"
winit = "0.19"
