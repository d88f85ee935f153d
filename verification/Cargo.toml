[package]
name = "subimage_scene"
version = "0.1.0"
edition = "2021"
publish = false

[dependencies]
gl = "=0.14.0"
image = { version = "0.25", default-features = false, features = ["jpeg", "png", "bmp", "pnm"] }
pathfinder_canvas = "=0.5.0"
pathfinder_color = "=0.5.0"
pathfinder_content = "=0.5.0"
pathfinder_geometry = "=0.5.1"
pathfinder_gl = "=0.5.0"
pathfinder_renderer = "=0.5.0"
pathfinder_resources = "=0.5.0"
sdl2 = "=0.38.0"
