[package]
name = "typst_bridge"
version = "0.1.0"
edition = "2021"
publish = false

[dependencies]
typst = "0.11"
typst-pdf = "0.11"
typst-svg = "0.11"
urlencoding = "2"
swift-bridge = "0.1"
comemo = "0.4"
