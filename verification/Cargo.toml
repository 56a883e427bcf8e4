[package]
name = "kolomoni"
version = "0.1.0"
edition = "2021"
publish = false

[dependencies]
chrono = { version = "0.4", default-features = false, features = ["alloc", "std", "clock"] }
httpdate = "1"
uuid = "1"
mime = "0.3"
actix-web = { version = "4", default-features = false, features = ["macros"] }
actix-http = { version = "3", default-features = false }
actix-cors = "0.7"
actix-utils = "3"
serde = { version = "1", features = ["derive"] }
serde_json = "1"
clap = { version = "4", features = ["derive"] }
tokio = { version = "1", features = ["rt-multi-thread", "macros", "sync"] }
tracing = "0.1"
utoipa = "4"
itertools = "0.13"
thiserror = "1"
