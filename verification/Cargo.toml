[package]
name = "webp_cache"
version = "0.1.0"
edition = "2021"
publish = false

[dependencies]
serde_json = "1"
serde = { version = "1", features = ["derive"] }
num_cpus = "1"
hyper = { version = "0.14", features = ["server", "http1", "tcp"] }
tokio = { version = "1", features = ["rt-multi-thread", "macros", "fs"] }
image = "0.23"
walkdir = "2"
threadpool = "1"
getopts = "0.2"
crossbeam-channel = "0.5"
glob = "0.3"
libc = "0.2"
