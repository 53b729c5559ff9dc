[package]
name = "zero2prod"
version = "0.1.0"
edition = "2021"
publish = false

[dependencies]
unicode-segmentation = "=1.13.3"
validator = "=0.20.0"
uuid = { version = "=1.29.1", features = ["v4"] }
base64 = "=0.22.1"
argon2 = { version = "=0.5.3", features = ["std"] }
urlencoding = "=2.1.3"
eyre = "=0.6.14"
secrecy = "=0.10.3"
serde = { version = "=1.0.229", features = ["derive"] }
actix-web = "=4.18.1"
actix-session = { version = "=0.10.1", features = ["cookie-session"] }
actix-web-flash-messages = { version = "=0.5.1", features = ["cookies"] }
tokio = { version = "=1.54.1", features = ["macros", "rt-multi-thread", "time"] }
reqwest = { version = "=0.12.28", default-features = false, features = ["json"] }
sqlx = { version = "=0.8.6", default-features = false, features = ["postgres", "runtime-tokio", "uuid"] }
tracing = "=0.1.44"
tracing-subscriber = { version = "=0.3.23", features = ["env-filter", "registry"] }
tracing-bunyan-formatter = "=0.3.11"
tracing-log = "=0.2.0"
tracing-actix-web = "=0.7.25"
config = { version = "=0.14.1", default-features = false, features = ["yaml"] }
rand = { version = "=0.8.8", features = ["std_rng"] }
thiserror = "=2.0.21"
lazy_errors = { version = "=0.9.0", features = ["eyre"] }
