[package]
name = "tswap"
version = "0.1.0"
edition = "2021"
publish = false

[dependencies]
serde = { version = "*", features = ["derive"] }
config-file = "*"
dotenv = "*"
text_io = "*"
chrono = { version = "*", default-features = false, features = ["clock"] }
tokio = { version = "*", features = ["macros", "rt"] }
ethers = { version = "*", default-features = false }
