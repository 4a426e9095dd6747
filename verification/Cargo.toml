[package]
name = "ts_type_doc"
version = "0.1.0"
edition = "2021"
publish = false

[dependencies]
deno_ast = "0.53"
serde = { version = "1", features = ["derive"] }
