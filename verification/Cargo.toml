[package]
name = "ntfs_index"
version = "0.1.0"
edition = "2021"
publish = false

[dependencies]
binread = "2"
