[package]
name = "quickfocus"
version = "0.1.0"
edition = "2021"
publish = false

[dependencies]
penrose = { version = "=0.2.1", default-features = false, features = ["xcb", "keysyms"] }
simplelog = "=0.12.2"
xcb = "=0.9.0"
