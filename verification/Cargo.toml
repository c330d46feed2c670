[package]
name = "mio_pipe"
version = "0.1.0"
edition = "2021"
publish = false

[dependencies]
libc = "0.2"
mio = { version = "1", features = ["os-poll", "os-ext"] }

[dev-dependencies]
nix = { version = "0.26", default-features = false, features = ["fs"] }
