[package]
name = "micbridge"
version = "0.3.0"
edition = "2021"
publish = false

[dependencies]
anyhow = "1"
chacha20poly1305 = "0.10"
ciborium = "0.2"
clap = { version = "4", features = ["derive"] }
ctrlc = "3"
dirs = "6"
gethostname = "1"
hex = "0.4"
mdns-sd = "*"
opus = "0.3"
rand = "0.8"
ringbuf = "0.4"
rubato = "0.16"
serde = { version = "1", features = ["derive"] }
sha2 = "0.10"
snow = "0.10"
spake2 = "0.4"
thiserror = "1"
toml = "0.8"
tracing = "0.1"
tracing-subscriber = { version = "0.3", features = ["env-filter"] }
