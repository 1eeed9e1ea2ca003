[package]
name = "echotune"
version = "0.1.0"
edition = "2021"
publish = false

[dependencies]
clap = { version = "4", features = ["derive"] }
colored = "2"
ctrlc = "3"
dialoguer = { version = "0.11", features = ["fuzzy-select"] }
directories = "5"
libc = "0.2"
reqwest = { version = "0.11", default-features = false }
serde = { version = "1", features = ["derive"] }
serde_json = "1"
signal-hook = "0.3"
tokio = { version = "1", features = ["full"] }
winapi = { version = "0.3", features = ["processthreadsapi", "winnt"] }
