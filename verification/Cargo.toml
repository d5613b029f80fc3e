[package]
name = "twap_core"
version = "0.1.0"
edition = "2021"
publish = false

[dependencies]
uniswap-sdk-core = "*"
uniswap-v3-sdk = "*"
sqlx = { version = "*", default-features = false, features = ["postgres", "runtime-tokio"] }
tokio = { version = "*", features = ["macros", "rt-multi-thread", "sync"] }
dotenvy = "*"
log = "*"
