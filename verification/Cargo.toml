[package]
name = "mme_shader_graph"
version = "0.1.0"
edition = "2021"
publish = false

[dependencies]
serde = { version = "*", features = ["derive"] }
ron = "*"
encoding = "*"
