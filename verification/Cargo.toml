[package]
name = "dnrs"
version = "0.1.0"
edition = "2021"
publish = false

[dependencies]
anyhow = "=1.0.104"
async-trait = "=0.1.92"
clap = "=4.6.7"
dirs = "=6.0.0"
lum_config = "=0.4.0"
lum_libs = { version = "=0.2.14", features = ["serde", "serde_json"] }
lum_log = "=0.4.0"
reqwest = { version = "=0.12.28", default-features = false, features = ["rustls-tls"] }
serde_json = "=1.0.154"
serde_yaml_ng = "=0.10.0"
thiserror = "=2.0.21"
tokio = { version = "=1.54.1", features = ["macros", "rt-multi-thread"] }

[dev-dependencies]
http = "=1.5.0"
