[package]
name = "heungguk_poc_rag"
version = "0.1.0"
edition = "2021"
publish = false

[dependencies]
anyhow = "=1.0.104"
clap = "=4.6.7"
milvus-sdk-rust = "3.0.2"
prost = "=0.11.9"
pyo3 = "=0.20.3"
tokio = { version = "=1.54.1", features = ["macros", "rt-multi-thread"] }
tonic = "=0.8.3"
tracing = "=0.1.44"
tracing-subscriber = "=0.3.23"
