[package]
name = "tigerbot"
version = "0.1.0"
edition = "2021"
publish = false

[dependencies]
cached = { version = "=4.1.0", features = ["async"] }
chrono = "=0.4.45"
dptree = "=0.5.1"
futures = "=0.3.34"
itertools = "=0.15.0"
nanoid = "=0.5.0"
postgres-types = { version = "=0.2.14", features = ["with-chrono-0_4"] }
redis = { version = "=1.8.1", features = ["tokio-comp", "connection-manager"] }
rust_decimal = { version = "=1.43.0", features = ["db-tokio-postgres"] }
takecell = "=0.1.1"
teloxide = { version = "=0.17.0", features = ["macros"] }
thiserror = "=2.0.21"
tokio = { version = "=1.54.1", features = ["macros", "rt-multi-thread"] }
tokio-postgres = { version = "=0.7.18", features = ["with-chrono-0_4"] }
deadpool-postgres = "=0.14.2"
tracing = "=0.1.44"
tracing-subscriber = "=0.3.23"
