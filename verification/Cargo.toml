[package]
name = "ext4_fuse"
version = "0.1.0"
edition = "2021"
publish = false

[dependencies]
ext4_rs = "*"
fuser = "*"
log = "0.4"
