[package]
name = "paper_plane_message"
version = "0.1.0"
edition = "2021"
publish = false

[dependencies]
tdlib = { version = "=0.10.0", features = ["dox"] }
once_cell = "=1.21.4"
glib = "=0.22.10"
gtk4 = "=0.11.5"
