[package]
name = "komo"
version = "0.1.0"
edition = "2021"
publish = false

[dependencies]
anyhow = "1"
async-trait = "0.1"
chrono = "0.4"
clap = { version = "4", features = ["derive"] }
croner = "*"
dirs = "*"
envy = "0.4"
futures-util = "0.3"
pulldown-cmark = "*"
qrcode = "*"
reqwest = { version = "*", default-features = false, features = ["json"] }
rustyline = "*"
serde = { version = "1", features = ["derive"] }
serde_json = "1"
sha2 = "*"
thiserror = "*"
time = "0.3"
tokio = { version = "1", features = ["full"] }
toml = "*"
tracing = "0.1"
uuid = { version = "1", features = ["v4", "v7"] }
wechatbot = "*"
