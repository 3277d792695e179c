[package]
name = "laoshi"
version = "0.1.0"
edition = "2021"
publish = false

[dependencies]
async-openai = "=0.18.3"
console = "=0.15.11"
dialoguer = "=0.11.0"
serde = { version = "=1.0.229", features = ["derive"] }
simple-fs = { version = "=0.1.7", features = ["with-toml"] }
textwrap = "=0.16.4"
tokio = { version = "=1.53.2", features = ["macros", "rt-multi-thread", "time"] }
