[package]
name = "render_batch"
version = "0.1.0"
edition = "2021"
publish = false

[dependencies]
allocator-api2 = "=0.2.21"
bytemuck = { version = "=1.25.2", features = ["derive"] }
cgmath = "=0.18.0"
hashbrown = "=0.17.1"
