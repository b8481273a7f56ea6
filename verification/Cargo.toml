[package]
name = "code_warrior"
version = "0.1.0"
edition = "2021"
publish = false

[dependencies]
seccompiler = "*"
regex = "*"
sha2 = "*"
hex = "*"
rand = "*"
libc = "*"
serde = { version = "*", features = ["derive"] }
serde_json = "*"
tokio = { version = "*", default-features = false, features = ["rt", "time", "macros"] }
