[package]
name = "trawler_mysql"
version = "0.1.0"
edition = "2021"
publish = false

[dependencies]
chrono = "=0.4.45"
clap = "=2.34.0"
futures = "=0.1.31"
mysql_async = "=0.14.2"
tokio-core = "=0.1.18"
trawler = "0.5"
