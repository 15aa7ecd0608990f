[package]
name = "greeting_bot"
version = "0.1.0"
edition = "2021"
rust-version = "1.95"
publish = false

[dependencies]
rand = "=0.9.5"
regex = "=1.13.1"
string_format = "=0.1.0"
chrono = "=0.4.45"
config = { version = "=0.15.27", default-features = false, features = ["toml"] }
serde = { version = "=1.0.229", features = ["derive"] }
tokio = { version = "=1.54.1", features = ["full"] }
teloxide = { version = "=0.17.0", features = ["macros"] }
# Used by teloxide, not by this crate: takecell 0.1.2 asks for a newer
# compiler than the rust-version above, and teloxide takes any 0.1.
takecell = "<0.1.2"
sqlx = { version = "=0.9.0", features = ["runtime-tokio", "sqlite"] }
reqwest = { version = "=0.13.5", features = ["json"] }
ollama-rs = "=0.3.6"
cron_tab = { version = "=0.2.14", features = ["async"] }
async-trait = "=0.1.92"
dotenvy = "=0.15.7"
tracing = "=0.1.44"
tracing-subscriber = "=0.3.23"
