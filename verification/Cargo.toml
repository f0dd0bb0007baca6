[package]
name = "mnu"
version = "0.1.0"
edition = "2021"
publish = false

[dependencies]
sha2 = "=0.11.1"
rand_chacha = "=0.10.0"
rand_core = "=0.10.1"
zeroize = "=1.9.1"
spin = "=0.12.3"
linked_list_allocator = "*"
