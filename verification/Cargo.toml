[package]
name = "poseidon"
version = "0.1.0"
edition = "2021"
publish = false

[dependencies]
sha2 = "*"
bs58 = "*"
minreq = { version = "*", features = ["https"] }
json = "*"
serde = { version = "1", features = ["derive"] }
serde_json = "1"
serde_path_to_error = "*"
toml = "*"
camino = "*"
async-fs = "*"
futures-lite = "*"
smol = "*"
wasmium-securemem = "*"
hex = "*"
blake3 = "*"
