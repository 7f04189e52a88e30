[package]
name = "scrop"
version = "0.1.0"
edition = "2021"
publish = false

[dependencies]
cairo-rs = "*"
clap = { version = "4", features = ["derive"] }
memmap2 = "0.9"
pango = "*"
pangocairo = "*"
tempfile = "3"
thiserror = "2"
wayland-client = "0.31"
wayland-protocols = { version = "0.32", features = ["client", "staging", "unstable"] }
wayland-protocols-wlr = { version = "0.3", features = ["client"] }
