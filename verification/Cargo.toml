[package]
name = "telepirate"
version = "0.1.0"
edition = "2021"
publish = false

[dependencies]
dptree = "=0.3.0"
fern = { version = "=0.6.2", features = ["colored"] }
glob = "=0.3.4"
humantime = "=2.4.0"
log = "=0.4.35"
ngrok = "=0.13.1"
regex = "=1.13.1"
takecell = "=0.1.1"
teloxide = { version = "=0.12.2", features = ["macros", "webhooks-axum", "ctrlc_handler"] }
tokio = { version = "=1.54.1", features = ["rt-multi-thread", "macros"] }
uuid = { version = "=1.29.0", features = ["v4"] }
validators = "=0.25.3"
ytd-rs = "=0.1.7"
