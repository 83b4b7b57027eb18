[package]
name = "lesbar"
version = "0.1.0"
edition = "2021"
publish = false

[dependencies]
unicode-segmentation = "*"
unicode-width = "*"
unicode-properties = "*"
serde = "*"
