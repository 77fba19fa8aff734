[package]
name = "showfeed"
version = "0.1.0"
edition = "2021"
publish = false

[dependencies]
axum = "*"
envir = "*"
hyper = "*"
log = "*"
maud = "*"
reqwest = { version = "*", features = ["json"] }
serde = { version = "*", features = ["derive"] }
serde_json = "*"
thiserror = "*"
tokio = { version = "*", features = ["full"] }
tower = { version = "*", features = ["limit"] }
