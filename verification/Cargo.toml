[package]
name = "ce_mcp_plugin"
version = "0.1.0"
edition = "2021"
publish = false

[dependencies]
crossbeam-channel = "0.5"
lazy_static = "1"
log = "0.4"
obfstr = "0.4"
winapi = { version = "0.3", features = ["minwindef", "winnt", "libloaderapi", "basetsd"] }
