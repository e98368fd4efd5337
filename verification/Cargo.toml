[package]
name = "hash_collisions"
version = "0.1.0"
edition = "2021"
publish = false

[dependencies]
md5 = "*"
sha2 = "*"
crc32fast = "*"
