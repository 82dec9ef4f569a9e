[package]
name = "litecraft"
version = "0.1.0"
edition = "2021"
publish = false

[dependencies]
smallvec = "*"
allegro = "*"
allegro_font = "*"
allegro_ttf = "*"
