[package]
name = "ats"
version = "0.1.0"
edition = "2021"
publish = false

[dependencies]
async-trait = "0.1"
chromiumoxide = "*"
clap = { version = "4", features = ["derive"] }
futures = "0.3"
jsonschema = { version = "0.18", default-features = false }
markdown2pdf = "*"
regex = "1"
reqwest = { version = "0.12", default-features = false, features = ["json"] }
serde = { version = "1", features = ["derive"] }
serde_json = "1"
serde_path_to_error = "0.1"
serde_yaml_ng = "0.10"
sha2 = "0.10"
tempfile = "3"
thiserror = "2"
time = { version = "0.3", features = ["formatting", "macros", "local-offset"] }
tokio = { version = "1", features = ["full"] }
tracing = "0.1"
tracing-subscriber = { version = "0.3", features = ["env-filter", "json"] }
url = "2"
