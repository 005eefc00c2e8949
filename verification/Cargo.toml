[package]
name = "vfs_clgit"
version = "0.1.0"
edition = "2021"
publish = false

[dependencies]
clgit = "0.1"
vfs = "0.4"
