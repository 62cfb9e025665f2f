[package]
name = "odoh_client"
version = "0.1.0"
edition = "2021"
publish = false

[dependencies]
odoh-rs = "=0.1.11"
trust-dns-proto = "=0.19.7"
url = "=2.5.8"
reqwest = { version = "=0.11.27", default-features = false, features = ["rustls-tls"] }
tokio = { version = "=1.53.2", features = ["macros", "rt"] }
clap = "=2.34.0"
anyhow = "=1.0.104"

[dev-dependencies]
hpke = "=0.5.0"
futures = { version = "=0.3.34", features = ["executor"] }
