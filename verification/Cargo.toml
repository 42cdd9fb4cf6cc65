[package]
name = "typestate_pattern_usecase"
version = "0.1.0"
edition = "2021"
publish = false

[dependencies]
axum = { version = "=0.7.9", default-features = false, features = ["http1", "json", "tokio"] }
dotenv = "=0.15.0"
ethers-contract = { version = "=2.0.14", default-features = false, features = ["providers"] }
ethers-core = "=2.0.14"
ethers-providers = { version = "=2.0.14", default-features = false, features = ["rustls"] }
serde_json = "=1.0.154"
tokio = { version = "=1.54.1", features = ["macros", "net", "rt-multi-thread"] }
tower-http = { version = "=0.5.2", features = ["cors", "fs"] }
tracing = "=0.1.44"
tracing-subscriber = { version = "=0.3.23", default-features = false, features = ["env-filter", "fmt"] }
