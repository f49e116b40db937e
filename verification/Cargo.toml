[package]
name = "s3_bulk_move"
version = "0.1.0"
edition = "2021"
publish = false

[dependencies]
regex = "*"
docopt = "*"
serde = "*"
serde_derive = "*"
rusoto_core = { version = "*", default-features = false, features = ["rustls"] }
rusoto_s3 = { version = "*", default-features = false, features = ["rustls"] }
tokio = { version = "*", features = ["rt", "rt-multi-thread", "net", "time", "macros"] }
