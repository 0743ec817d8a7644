[package]
name = "rapl_lib"
version = "0.1.0"
edition = "2021"
publish = false

[dependencies]
anyhow = "1"
csv = "1"
once_cell = "1"
serde = "1"
shell-words = "1"
thiserror = "1"
windows = { version = "0.52", features = ["Win32_Foundation", "Win32_Security", "Win32_Storage_FileSystem", "Win32_System_Threading", "Win32_System_IO"] }
