[package]
name = "billing_core"
version = "0.1.0"
edition = "2021"
publish = false

[dependencies]
actix-cors = "=0.7.2"
actix-web = { version = "=4.18.1", default-features = false, features = ["macros"] }
actix-web-lab = "=0.20.2"
async-stripe = "=1.0.0-rc.9"
async-stripe-checkout = { version = "=1.0.0-rc.9", features = ["checkout_session"] }
async-stripe-core = { version = "=1.0.0-rc.9", features = ["customer"] }
async-stripe-product = { version = "=1.0.0-rc.9", features = ["price", "product"] }
async-stripe-shared = "=1.0.0-rc.9"
async-stripe-types = "=1.0.0-rc.9"
async-stripe-webhook = "=1.0.0-rc.9"
async-trait = "=0.1.92"
chrono = { version = "=0.4.45", features = ["serde"] }
env_logger = "=0.11.11"
jsonwebtoken = "=9.3.1"
log = "=0.4.34"
oauth2 = "=4.4.2"
reqwest = { version = "=0.11.27", features = ["json"] }
serde = { version = "=1.0.229", features = ["derive"] }
serde_json = "=1.0.154"
sqlx = { version = "=0.7.4", default-features = false, features = ["postgres", "chrono", "runtime-tokio", "macros"] }
thiserror = "=1.0.69"
