[package]
name = "reso_query"
version = "0.1.0"
edition = "2021"
publish = false

[dependencies]
reso-client = "=0.2.1"
serde_json = "=1.0.154"
dotenv = "=0.15.0"
