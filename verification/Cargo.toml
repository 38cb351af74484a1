[package]
name = "dustmaps_api"
version = "0.1.0"
edition = "2021"
publish = false

[dependencies]
axum = "*"
cdshealpix = "*"
memmap2 = "*"
ndarray = "0.16"
ndarray-npy = "0.9"
serde = { version = "1", features = ["derive"] }
thiserror = "*"
tokio = { version = "1", features = ["macros", "rt-multi-thread", "net", "signal"] }
tower-http = { version = "*", features = ["trace"] }
tracing = "*"
tracing-subscriber = { version = "*", features = ["env-filter"] }
