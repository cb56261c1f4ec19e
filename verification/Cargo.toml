[package]
name = "libsql_binding"
version = "0.1.0"
edition = "2021"
publish = false

[dependencies]
futures = { version = "0.3", default-features = false, features = ["executor", "std"] }
libsql = { version = "*", default-features = false, features = ["core", "remote"] }
mlua = { version = "0.9", features = ["lua54", "module"] }
