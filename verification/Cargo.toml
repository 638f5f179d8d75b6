[package]
name = "mlua_bindgen"
version = "0.1.0"
edition = "2021"
publish = false

[dependencies]
syn = { version = "2", features = ["full", "extra-traits"] }
proc-macro2 = "1"
quote = "1"
walkdir = "2"
mlua = { version = "0.10", features = ["lua54", "vendored"] }
