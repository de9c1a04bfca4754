[package]
name = "alkahest_shadowkeep"
version = "0.1.0"
edition = "2021"
publish = false

[dependencies]
anyhow = "1"
bytemuck = "1"
ddsfile = "0.5"
glam = "0.29"
hashbrown = "0.15"
itertools = "0.14"
parking_lot = "0.12"
serde = { version = "1", features = ["derive"] }
serde_json = "1"
sha2 = "0.10"
smallvec = "1"
tiger-pkg = "*"
tracing = "0.1"
uuid = "1"
