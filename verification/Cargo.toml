[package]
name = "imap_proxy"
version = "0.1.0"
edition = "2021"
publish = false

[dependencies]
colored = "=2.2.0"
imap-codec = "=2.0.0-alpha.9"
imap-next = "=0.3.4"
# imap-codec 2.0.0-alpha.9 uses the parts of nom that need its `alloc`
# feature and does not switch it on; naming nom here does.
nom = "=7.1.3"
once_cell = "=1.21.4"
rustls-native-certs = "=0.8.5"
serde = { version = "=1.0.229", features = ["derive"] }
thiserror = "=2.0.21"
tokio = { version = "=1.54.1", features = ["macros", "net", "rt-multi-thread"] }
tokio-rustls = "=0.26.6"
toml = "=1.1.8"
tracing = "=0.1.44"
