[package]
name = "pages_rs"
version = "0.1.0"
edition = "2021"
publish = false

[dependencies]
http = "1"
toml_edit = "0.22"
axum = "0.8"
tokio = { version = "1", features = ["full"] }
tower = { version = "0.5", features = ["util"] }
http-body-util = "0.1"
napi = { version = "2", features = ["async", "napi4"] }
napi-derive = "2"
clap = { version = "4", features = ["derive"] }
include_dir = "0.7"
walkdir = "2"
zip = { version = "2", default-features = false, features = ["deflate"] }
