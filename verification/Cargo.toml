[package]
name = "rusty_dam"
version = "0.1.0"
edition = "2021"
publish = false

[dependencies]
uuid = { version = "1", features = ["v4"] }
tiny-keccak = "1.5"
chrono = "0.4"
serde = { version = "1", features = ["derive"] }
serde_json = "1"
diesel = { version = "2", features = ["postgres", "uuid"] }
dotenv = "0.15"
lazy_static = "1"
rs-es = "*"
winapi = { version = "0.3", features = ["winsvc", "winnt", "minwindef", "winerror", "winbase"] }
winreg = "*"
