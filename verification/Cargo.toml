[package]
name = "uranusbound"
version = "0.1.0"
edition = "2021"
publish = false

[dependencies]
serde_json = { version = "=1.0.154", features = ["preserve_order"] }
find_folder = "=0.3.0"
glium = { version = "=0.26.0", default-features = false }
image = "=0.25.10"
piston = "=1.0.0"
piston2d-glium_graphics = "=0.96.0"
piston2d-graphics = "=0.45.0"
tiled = "=0.16.0"
