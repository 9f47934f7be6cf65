[package]
name = "aci"
version = "0.1.0"
edition = "2021"
publish = false

[dependencies]
base64 = "0.22"
sha2 = "0.10"
md5 = "0.7"
url = "2"
reqwest = { version = "0.12", default-features = false, features = ["json", "gzip"] }
chrono = { version = "0.4", features = ["serde"] }
clap = { version = "4", features = ["derive", "env"] }
config = { version = "0.14", default-features = false, features = ["toml"] }
csv = "1"
dotenvy = "0.15"
futures = "0.3"
itertools = "0.13"
serde = { version = "1", features = ["derive"] }
serde_json = "1"
sqlx = { version = "0.8", default-features = false, features = ["runtime-tokio", "mysql", "postgres", "chrono", "macros"] }
thiserror = "2"
tokio = { version = "1", features = ["macros", "rt-multi-thread", "sync", "time"] }
tokio-retry2 = "*"
tracing = "0.1"
anyhow = "1"
