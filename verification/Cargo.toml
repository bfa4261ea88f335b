[package]
name = "outbound_tunnel"
version = "0.1.0"
edition = "2021"
publish = false

[dependencies]
sha2 = "=0.10.9"
tokio = { version = "=1.53.2", features = ["full"] }
rustls = { version = "=0.20.9", features = ["dangerous_configuration"] }
tokio-rustls = "=0.23.4"
quinn = "=0.8.5"
