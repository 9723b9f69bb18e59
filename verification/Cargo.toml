[package]
name = "rs-arrow-ipc-stream2x"
version = "0.1.0"
edition = "2021"
publish = false

[dependencies]
arrow = { version = "=60.0.0", default-features = false, features = ["ipc"] }
chrono = { version = "=0.4.45", default-features = false }
clap = { version = "=4.6.7", features = ["derive"] }
rust_xlsxwriter = { version = "=0.101.0", features = ["chrono"] }

[dev-dependencies]
zip = { version = "=9.0.5", default-features = false, features = ["deflate"] }
