[package]
name = "ytdl_operator"
version = "0.1.0"
edition = "2021"
publish = false

[dependencies]
serde_json = "1"
image = { version = "0.25", default-features = false, features = ["jpeg", "png", "gif", "webp", "tiff", "bmp", "ico"] }
serde = { version = "1", features = ["derive"] }
kube = { version = "=0.92.1", features = ["runtime", "derive", "client"] }
k8s-openapi = { version = "=0.22.0", features = ["latest"] }
schemars = "=0.8.22"
tokio = { version = "1", features = ["macros", "rt-multi-thread", "process", "io-util", "time", "fs", "sync"] }
reqwest = { version = "0.12", default-features = false, features = ["rustls-tls"] }
futures = "0.3"
clap = { version = "4", features = ["derive"] }
chrono = "0.4"
rust-s3 = { version = "0.35", default-features = false, features = ["tokio-rustls-tls"] }
