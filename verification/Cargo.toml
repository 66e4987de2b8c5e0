[package]
name = "eps_server"
version = "0.1.0"
edition = "2021"
publish = false

[dependencies]
axum = { version = "0.6", features = ["macros"] }
clap = { version = "4", features = ["derive"] }
eyre = "0.6"
hyper = { version = "0.14", features = ["full"] }
mime = "0.3"
resvg = "0.25"
tiny-skia = "0.8"
tokio = { version = "1", features = ["full"] }
tokio-util = { version = "0.7", features = ["io"] }
tower-http = { version = "0.4", features = ["trace"] }
tracing = "0.1"
tracing-subscriber = { version = "0.3", features = ["env-filter"] }
usvg = "0.25"
