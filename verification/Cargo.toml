[package]
name = "spin_wheel"
version = "0.1.0"
edition = "2021"
publish = false

[dependencies]
anchor-lang = "=0.31.2"
bytemuck = { version = "=1.25.2", features = ["derive"] }
