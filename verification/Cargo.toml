[package]
name = "multiow"
version = "0.1.0"
edition = "2021"
publish = false

[dependencies]
bincode = "1.3"
serde = { version = "1", features = ["derive"] }
serde_derive = "1"
winapi = { version = "0.3", features = ["minwindef", "windef", "winnt", "winuser", "wingdi", "processthreadsapi", "memoryapi", "psapi"] }
