[package]
name = "rustify"
version = "0.1.0"
edition = "2021"
publish = false

[dependencies]
regex = "=1.13.1"
rustrict = { version = "=0.7.39", features = ["customize"] }
md5 = "=0.8.1"
url = "=2.5.8"
whatlang = "=0.18.0"
isolang = "=2.4.0"
strum = { version = "=0.28.0", features = ["derive"] }
teloxide = { version = "=0.17.0", features = ["macros"] }
takecell = "=0.1.1"
tokio = { version = "=1.54.1", features = ["macros", "rt-multi-thread"] }
redis = { version = "=1.8.1", features = ["tokio-comp"] }
reqwest = { version = "=0.12.28", features = ["json"] }
serde = { version = "=1.0.229", features = ["derive"] }
serde_json = "=1.0.154"
chrono = "=0.4.45"
strsim = "=0.11.1"
clap = { version = "=4.6.7", features = ["derive"] }
csv = "=1.4.0"
anyhow = "=1.0.104"
tracing = "=0.1.44"
itertools = "=0.15.0"
indoc = "=2.0.8"
