[package]
name = "html5ever_glue"
version = "0.1.0"
edition = "2021"
publish = false

[dependencies]
html5ever = "*"
string_cache = "*"
tendril = "*"
