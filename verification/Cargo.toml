[package]
name = "tdb"
version = "0.1.0"
edition = "2021"
publish = false

[dependencies]
comfy-table = "=8.0.1"
chrono = "=0.4.45"
clap = { version = "=4.6.7", features = ["string"] }
serde = { version = "=1.0.229", features = ["derive"] }
toml = "=1.1.7"
tiberius = { version = "=0.13.0", default-features = false, features = ["tds73", "rustls", "chrono"] }
tokio = { version = "=1.53.2", features = ["rt", "net", "time", "macros"] }
tokio-util = { version = "=0.7.19", features = ["compat"] }
tracing = "=0.1.44"
tracing-subscriber = { version = "=0.3.23", features = ["env-filter", "fmt"] }
