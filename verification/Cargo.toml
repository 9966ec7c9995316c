[package]
name = "tls_reactor"
version = "0.1.0"
edition = "2021"
publish = false

[dependencies]
bytes = "*"
mio = "=0.6.23"
rustls = { version = "0.23", default-features = false, features = ["ring", "std"] }

[dev-dependencies]
rcgen = "*"
