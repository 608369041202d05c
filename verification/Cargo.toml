[package]
name = "simple_hv"
version = "0.1.0"
edition = "2021"
publish = false

[dependencies]
axallocator = "*"
axhal = { version = "0.3.0-preview.3", default-features = false }
axlog = "0.3.0-preview.3"
axmm = { version = "0.3.0-preview.3", default-features = false }
axstd = { version = "0.3.0-preview.3", default-features = false }
riscv = "*"
tock-registers = "0.8"
