[package]
name = "stuart_math"
version = "0.1.0"
edition = "2021"
publish = false

[dependencies]
mathjax_svg = "=3.1.2"
stuart_core = "=0.3.2"
xmltree = { version = "=0.12.0", features = ["attribute-sorted"] }
