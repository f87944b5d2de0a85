[package]
name = "vfio_pci"
version = "0.1.0"
edition = "2021"
publish = false

[dependencies]
anyhow = "*"
libc = "*"
memmap2 = "*"
