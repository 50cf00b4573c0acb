[package]
name = "plec_query_core"
version = "0.1.0"
edition = "2021"
publish = false

[dependencies]
blake3 = "=1.8.7"
dashmap = "=6.2.1"
lru = "=0.19.0"
once_cell = "=1.21.4"
parking_lot = "=0.13.0"
rmp-serde = "=1.3.1"
serde = { version = "=1.0.229", features = ["derive"] }
serde_json = "=1.0.154"
smallvec = "=1.16.4"
thiserror = "=2.0.21"
swc_common = "*"
swc_ecma_ast = "*"
swc_ecma_parser = "*"
