[package]
name = "ganbare"
version = "0.1.0"
edition = "2021"
publish = false

[dependencies]
data-encoding = "=2.11.1"
rand = "=0.8.8"
chrono = "=0.4.45"
regex = "=1.13.1"
unicode-normalization = "=0.1.26"
mime = "=0.2.6"
diesel = { version = "=2.3.14", features = ["postgres", "chrono"] }
diesel_migrations = "=2.3.2"
pencil = { version = "=0.3.0", default-features = false }
hyper = { version = "=0.9.18", default-features = false }
dotenv = "=0.15.0"
log = "=0.4.35"
env_logger = "=0.10.2"
time = "=0.1.45"
rustc-serialize = "=0.3.25"
lazy_static = "=1.5.1"
rust-crypto = "=0.2.36"
