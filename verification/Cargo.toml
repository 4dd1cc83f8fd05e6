[package]
name = "quad_glb"
version = "0.1.0"
edition = "2021"
publish = false

[dependencies]
anyhow = "=1.0.104"
gltf = { version = "=1.3.0", default-features = false, features = ["extras", "names"] }
gltf-json = { version = "=1.3.0", default-features = false, features = ["extras", "names"] }
serde_json = "=1.0.154"
