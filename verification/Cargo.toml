[package]
name = "azrath"
version = "0.1.0"
edition = "2021"
publish = false

[dependencies]
hyper = { version = "0.14", features = ["server", "http1", "http2", "stream", "runtime"] }
tokio = { version = "1", features = ["rt-multi-thread", "macros", "net", "io-util", "time"] }
mio = { version = "0.8", features = ["os-poll", "net"] }
futures = "0.3"
log = "0.4"
num_cpus = "1"
serde = { version = "1", features = ["derive"] }
thiserror = "1"
dotenv = "0.15"
config = { version = "0.13", default-features = false, features = ["toml"] }
