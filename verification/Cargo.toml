[package]
name = "msr"
version = "0.1.0"
edition = "2021"
publish = false

[dependencies]
anyhow = "*"
async-trait = "*"
bytes = "*"
futures = "*"
indexmap = "*"
itertools = "*"
reqwest = { version = "*", default-features = false, features = ["json"] }
sea-orm = { version = "*", default-features = false, features = ["sqlx-sqlite", "runtime-tokio-rustls"] }
serde = { version = "*", features = ["derive"] }
thiserror = "*"
tokio = { version = "*", features = ["macros", "rt-multi-thread"] }
url = { version = "*", features = ["serde"] }
