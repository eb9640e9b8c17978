[package]
name = "podfetch"
version = "0.1.0"
edition = "2021"
publish = false

[dependencies]
bytes = "1"
chrono = "0.4"
colored = "2"
displaydoc = "0.2"
fern = "0.6"
log = "0.4"
reqwest = "0.11"
rss = "2"
rt-format = "0.3"
scraper = "0.13"
serde_json = "1"
structopt = "0.3"
thiserror = "1"
tokio = { version = "1", features = ["macros", "rt-multi-thread"] }
url = "2"
