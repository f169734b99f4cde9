[package]
name = "inertia_rust"
version = "0.1.0"
edition = "2021"
publish = false

[dependencies]
serde = { version = "=1.0.229", features = ["derive"] }
serde_json = "=1.0.154"
reqwest = { version = "=0.12.28", default-features = false, features = ["json"] }
actix-web = { version = "=4.18.1", default-features = false }
tokio = { version = "=1.54.1", features = ["fs"] }
log = "=0.4.34"
futures-util = "=0.3.34"
async-trait = "=0.1.92"
vite-rust = { version = "=0.2.4", features = ["basic-directives"] }
