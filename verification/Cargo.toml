[package]
name = "tastytrade"
version = "0.1.0"
edition = "2021"
publish = false

[dependencies]
rust_decimal = { version = "1", features = ["serde-with-arbitrary-precision", "serde-with-float"] }
serde = { version = "1", features = ["derive"] }
serde_json = { version = "1", features = ["arbitrary_precision"] }
reqwest = { version = "*", default-features = false, features = ["json"] }
reqwest_inspect_json = "*"
