[package]
name = "dmatex"
version = "0.1.0"
edition = "2021"
publish = false

[dependencies]
vulkano = "*"
stardust-xr-fusion = "*"
timeline_syncobj = "*"
drm-fourcc = "*"
rustix = "*"
thiserror = "*"
tracing = "*"
