[package]
name = "blog_generator"
version = "0.1.0"
edition = "2021"
publish = false

[dependencies]
chrono = "0.4"
reqwest = "*"
scraper = "*"
tokio = { version = "1", features = ["macros", "rt-multi-thread"] }
