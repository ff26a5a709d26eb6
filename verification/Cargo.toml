[package]
name = "pi_loop"
version = "0.1.0"
edition = "2021"
publish = false

[dependencies]
rand = "0.8"
plotters = { version = "0.3", default-features = false, features = ["svg_backend", "line_series"] }
