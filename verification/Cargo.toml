[package]
name = "my_stacking"
version = "0.1.0"
edition = "2021"
publish = false

[dependencies]
appconfig = "0.2.1"
iced = { version = "0.13.1", default-features = false, features = ["tiny-skia"] }
serde = { version = "1", features = ["derive"] }
