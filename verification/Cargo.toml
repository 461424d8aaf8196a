[package]
name = "qrshow"
version = "0.1.0"
edition = "2021"
publish = false

[dependencies]
anyhow = "1"
clipboard = "0.5"
env_logger = "0.8"
image = { version = "0.23", default-features = false, features = ["png"] }
log = "0.4"
minifb = "0.19"
qrcode = { version = "0.12", default-features = false, features = ["image"] }
structopt = "0.3"
