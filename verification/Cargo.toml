[package]
name = "paimon"
version = "0.1.0"
edition = "2021"
publish = false

[dependencies]
chrono = "*"
clap = { version = "*", features = ["derive"] }
colored = "*"
dirs-next = "*"
is-url = "*"
minify = "*"
once_cell = "*"
pulldown-cmark = "*"
regex = "*"
reqwest = "*"
scihub-scraper = "*"
serde_yaml = "*"
tokio = { version = "*", features = ["macros", "rt-multi-thread"] }
