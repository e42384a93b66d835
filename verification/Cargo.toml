[package]
name = "tinylord"
version = "0.1.0"
edition = "2021"
publish = false

[dependencies]
anyhow = "=1.0.104"
argon2 = { version = "=0.5.3", features = ["std"] }
async-stream = "=0.3.6"
axum = "=0.8.9"
base64 = "=0.22.1"
clap = { version = "=4.6.7", features = ["derive"] }
futures = "=0.3.34"
governor = "=0.8.1"
hex = "=0.4.3"
keyring = { version = "3", features = ["apple-native", "linux-native", "windows-native"] }
r2d2 = "=0.8.10"
r2d2_sqlite = "=0.25.0"
rand = "=0.8.8"
rusqlite = { version = "=0.32.1", features = ["bundled-sqlcipher-vendored-openssl", "hooks"] }
serde = { version = "=1.0.229", features = ["derive"] }
serde_json = "=1.0.154"
sha2 = "=0.10.9"
tokio = { version = "=1.54.1", features = ["full"] }
toml = "=0.8.23"
tower-http = { version = "=0.6.11", features = ["cors", "limit", "trace", "fs"] }
tracing = "=0.1.44"
tracing-subscriber = { version = "=0.3.23", features = ["env-filter", "json"] }
ulid = "=1.2.1"
zeroize = "=1.9.1"
