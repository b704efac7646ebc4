[package]
name = "axum_xitca"
version = "0.1.0"
edition = "2021"
publish = false

[dependencies]
axum = "*"
futures-core = "0.3"
http-body = "*"
pin-project-lite = "0.2"
tower = "*"
xitca-http = "=0.8.2"
xitca-io = "=0.5.1"
xitca-server = "=0.6.1"
xitca-service = "=0.3.0"
xitca-unsafe-collection = "=0.2.0"
