[package]
name = "kvm_bindings"
version = "0.1.0"
edition = "2021"
publish = false

[dependencies]
vmm-sys-util = "*"
libc = "*"
