[package]
name = "dgraph_client"
version = "0.1.0"
edition = "2021"
publish = false

[dependencies]
futures = { version = "0.3", features = ["compat"] }
grpc = "0.6"
httpbis = "0.7"
protobuf = "2"
rand = "0.7"
rand_xoshiro = "0.4"

[dev-dependencies]
serde_json = "1"
