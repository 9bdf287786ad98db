[package]
name = "term_raster"
version = "0.1.0"
edition = "2021"
publish = false

[dependencies]
async-trait = "*"
itertools = "*"
nalgebra-glm = "*"
russh = "0.44"
russh-keys = "0.44"
tobj = "*"
tokio = { version = "1", features = ["rt-multi-thread", "macros", "time", "sync"] }
uuid = { version = "1", features = ["v4"] }
