[package]
name = "myelin"
version = "0.1.0"
edition = "2021"
publish = false

[dependencies]
async-channel = "=2.5.0"
atomic-waker = "=1.1.2"
convert_case = "=0.12.0"
embassy-sync = "=0.8.0"
futures-io = "=0.3.34"
heapless = "=0.9.3"
minicbor-serde = { version = "=0.7.2", features = ["alloc"] }
paste = "1"
postcard = { version = "=1.1.3", features = ["alloc", "use-std"] }
proc-macro2 = "=1.0.107"
quote = "=1.0.47"
serde = { version = "=1.0.229", features = ["derive"] }
static_cell = "=2.1.1"
syn = { version = "=2.0.119", features = ["full"] }
tokio = { version = "=1.54.1", features = ["sync", "io-util", "rt", "macros"] }
