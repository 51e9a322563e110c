[package]
name = "rustexp"
version = "0.1.0"
edition = "2021"
publish = false

[dependencies]
regex = "1"
leptos = { version = "0.5", features = ["csr"] }
leptos_meta = { version = "0.5", features = ["csr"] }
leptos_router = { version = "0.5", features = ["csr"] }
tracing = "0.1"
