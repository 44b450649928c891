[package]
name = "object_storage"
version = "0.1.0"
edition = "2021"
publish = false

[dependencies]
opendal = { version = "=0.59.5", default-features = false, features = ["services-s3", "layers-logging"] }
object_store_opendal = "=0.60.5"
object_store = "=0.14.2"
http = "=1.5.0"
serde = { version = "=1.0.229", features = ["derive"] }

[dev-dependencies]
futures = "=0.3.34"
