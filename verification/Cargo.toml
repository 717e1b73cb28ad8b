[package]
name = "mddplayer"
version = "0.1.0"
edition = "2021"
publish = false

[dependencies]
unicode-width = "*"
rand = "*"
clap = { version = "*", features = ["derive"] }
crossterm = "*"
glob = "*"
lofty = "*"
rodio = "*"
symphonia = "*"
