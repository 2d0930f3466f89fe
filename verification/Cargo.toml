[package]
name = "star_frame"
version = "0.1.0"
edition = "2021"
publish = false

[dependencies]
borsh = "=1.8.1"
bytemuck = { version = "=1.25.2", features = ["min_const_generics"] }
pinocchio = "=0.9.3"
