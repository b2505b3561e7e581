[package]
name = "vectorc"
version = "0.1.0"
edition = "2021"
publish = false

[dependencies]
anyhow = "=1.0.104"
clap = { version = "=4.6.7", features = ["derive"] }
hex = "=0.4.3"
libc = "=0.2.191"
rand = "=0.9.5"
serde = { version = "=1.0.229", features = ["derive"] }
serde_json = "=1.0.154"
sha2 = "=0.10.9"
thiserror = "=2.0.21"
tracing = "=0.1.44"
tracing-subscriber = { version = "=0.3.23", features = ["env-filter"] }
wasm-encoder = "=0.263.0"
wasmparser = "=0.263.0"
wasmtime = { version = "=46.0.3", default-features = false, features = ["cranelift", "runtime", "std"] }

[dev-dependencies]
wat = "=1.263.0"
