[package]
name = "imageflow_core"
version = "0.1.0"
edition = "2021"
publish = false

[dependencies]
garb = "=0.2.8"
smallvec = "=1.16.4"
twox-hash = "=2.1.5"
bytemuck = "=1.25.2"
enough = "*"
serde_json = "1"
