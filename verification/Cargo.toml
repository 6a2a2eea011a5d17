[package]
name = "mime_server"
version = "0.1.0"
edition = "2021"
publish = false

[dependencies]
form_urlencoded = "1"
hyper = { version = "0.14", features = ["full"] }
routerify = "3"
structopt = "0.3"
tokio = { version = "1", features = ["full"] }
