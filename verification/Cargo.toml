[package]
name = "kifi"
version = "0.1.0"
edition = "2021"
publish = false

[dependencies]
clap = { version = "*", features = ["derive"] }
dirs = "*"
fs_extra = "*"
glob = "*"
regex = "*"
serde = { version = "*", features = ["derive"] }
serde_derive = "*"
serde_cbor = "*"
slice-diff-patch = "*"
time = { version = "*", features = ["formatting"] }
