[package]
name = "libcontainer"
version = "0.1.0"
edition = "2021"
publish = false

[dependencies]
nix = { version = "*", features = ["mount", "fs", "user"] }
procfs = "*"
oci-spec = "*"
prctl = "*"
libc = "*"

[dev-dependencies]
tempfile = "*"
