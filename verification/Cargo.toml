[package]
name = "ldk_node_rpc"
version = "0.1.0"
edition = "2021"
publish = false

[dependencies]
prost = { version = "0.11", default-features = false, features = ["std"] }
hyper = { version = "1", features = ["server", "http1"] }
http-body-util = "0.1"
reqwest = { version = "0.11", default-features = false }
ldk-node = "*"
