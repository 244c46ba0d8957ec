[package]
name = "comrad"
version = "0.1.0"
edition = "2021"
publish = false

[dependencies]
audiotags = "0.5"
egui = { version = "0.32", default-features = false }
egui_extras = { version = "0.32", default-features = false, features = ["image"] }
image = { version = "0.25", default-features = false, features = ["ico", "png"] }
mp3-duration = "0.1"
rand = "0.9"
rand_distr = "0.5"
rodio = "0.21"
