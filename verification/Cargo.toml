[package]
name = "adi_gpu"
version = "0.1.0"
edition = "2021"
publish = false

[dependencies]
adi_gpu_base = "*"
adi_gpu_vulkan = "*"
adi_gpu_opengl = "*"
ami = "*"
