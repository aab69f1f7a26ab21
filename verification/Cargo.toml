[package]
name = "paykit"
version = "0.1.0"
edition = "2021"
publish = false

[dependencies]
anyhow = "*"
async-trait = "*"
chrono = { version = "*", features = ["serde"] }
futures = "*"
hex = "*"
hmac = "*"
lightning-invoice = "*"
log = "*"
reqwest = { version = "*", default-features = false, features = ["json"] }
serde = { version = "*", features = ["derive"] }
serde_html_form = "*"
serde_json = "*"
sha2 = "*"
tokio = { version = "*", features = ["sync", "rt", "macros", "time"] }
tokio-stream = { version = "*", features = ["sync"] }
url = "*"
