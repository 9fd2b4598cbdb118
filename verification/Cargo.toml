[package]
name = "webdav_delete"
version = "0.1.0"
edition = "2021"
publish = false

[dependencies]
http = "*"
futures = "0.3"
