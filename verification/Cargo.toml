[package]
name = "physics_game"
version = "0.1.0"
edition = "2021"
publish = false

[dependencies]
nalgebra = "=0.29.0"
ncollide2d = "=0.32.0"
nphysics2d = "=0.24.0"
piston_window = "=0.120.0"
