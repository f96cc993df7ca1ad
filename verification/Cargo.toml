[package]
name = "tower-redis-cell"
version = "0.1.0"
edition = "2021"
publish = false

[dependencies]
redis = { version = "=0.32.7", default-features = false, features = ["aio", "tokio-comp", "uuid"] }
deadpool-redis = "=0.22.1"
deadpool = "=0.12.3"
tower = "=0.5.3"
uuid = "=1.29.0"
thiserror = "=2.0.21"
