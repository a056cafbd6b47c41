[package]
name = "scm_ico"
version = "0.1.0"
edition = "2021"
publish = false

[dependencies]
chrono = "0.4"
ethcontract = { version = "*", default-features = false, features = ["http"] }
futures = "0.3"
primitive-types = "0.12"
structopt = "0.3"
tokio = { version = "1", features = ["macros", "rt-multi-thread", "time"] }
uint = "0.9"
