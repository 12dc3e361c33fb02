[package]
name = "cligpt"
version = "0.1.0"
edition = "2021"
publish = false

[dependencies]
async-openai = "0.10"
clap = { version = "4", features = ["derive", "env"] }
color-eyre = "0.6"
directories = "5"
futures-util = "0.3"
serde_json = "1"
tokio = { version = "1", features = ["macros", "rt-multi-thread"] }
