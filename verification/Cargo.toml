[package]
name = "blog_server"
version = "0.1.0"
edition = "2021"
publish = false

[dependencies]
tera = { version = "1", default-features = false }
actix-web = "4"
log = "0.4"
derive_more = { version = "*", features = ["display", "error"] }
