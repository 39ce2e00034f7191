[package]
name = "heating_manager"
version = "0.1.0"
edition = "2021"
publish = false

[dependencies]
env_logger = "*"
log = "0.4"
main_error = "*"
rand = "0.8"
rumqttc = { version = "0.10", default-features = false }
rust_decimal = "1"
sqlx = { version = "0.7", default-features = false, features = ["postgres", "runtime-tokio", "rust_decimal", "macros"] }
tokio = { version = "1", features = ["macros", "rt-multi-thread"] }
