[package]
name = "rs_pixel_backend"
version = "0.1.0"
edition = "2021"
publish = false

[dependencies]
actix-web = "4"
actix-governor = "*"
dotenv = "0.15"
rs-pixel = "*"
serde = { version = "1", features = ["derive"] }
surf = "2"
tokio = { version = "1", features = ["sync", "macros", "rt-multi-thread"] }
