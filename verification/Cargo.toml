[package]
name = "recv_body"
version = "0.1.0"
edition = "2021"
publish = false

[dependencies]
bytes = "1"
futures-channel = "0.3"
futures-core = "0.3"
futures-util = "0.3"
http = "0.2"
http-body = "0.4"
h2 = "0.3"
