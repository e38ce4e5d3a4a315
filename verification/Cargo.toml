[package]
name = "rich_presence_wrapper"
version = "0.1.0"
edition = "2021"
publish = false

[dependencies]
regex = "=1.13.1"
urlencoding = "=2.1.3"
discord-rich-presence = "=1.1.0"
fxhash = "=0.2.1"
html-escape = "=0.3.0"
serde = { version = "=1.0.229", features = ["derive"] }
serde_json = "=1.0.154"
tokio = { version = "=1.54.1", features = ["full"] }
clap = { version = "=4.6.7", features = ["derive", "env"] }
eyre = "=0.6.14"
tracing = "=0.1.44"
tracing-subscriber = "=0.3.23"
dirs = "=7.0.0"
tower-lsp = "=0.20.0"
module = { version = "=0.4.0", features = ["derive", "serde"] }
module-util = { version = "=0.4.0", features = ["toml"] }
magic-args = "=0.1.4"
