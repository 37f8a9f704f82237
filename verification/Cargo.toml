[package]
name = "n64_systemtest"
version = "0.1.0"
edition = "2021"
publish = false

[dependencies]
linked_list_allocator = "=0.10.6"
spinning_top = "=0.3.1"
