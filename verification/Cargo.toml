[package]
name = "shrs_line"
version = "0.1.0"
edition = "2021"
publish = false

[dependencies]
anyhow = "=1.0.104"
crossterm = "=0.26.1"
shrs_lang = "=0.0.6"
shrs_utils = "=0.0.6"
shrs_vi = "=0.0.6"
unicode-width = "=0.1.14"
