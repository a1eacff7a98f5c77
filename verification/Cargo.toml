[package]
name = "lspf"
version = "0.1.0"
edition = "2021"
publish = false

[dependencies]
bytes = "1"
futures-channel = "0.3"
futures-util = "0.3"
gen-lsp-types = "*"
lsp-types = "0.97"
ropey = "1"
serde = { version = "1", features = ["derive"] }
serde_json = "1"
thiserror = "*"
tokio = { version = "1", features = ["rt", "rt-multi-thread", "sync", "time", "macros", "io-util"] }
tokio-util = { version = "0.7", features = ["rt"] }
tracing = "0.1"
