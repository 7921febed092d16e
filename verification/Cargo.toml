[package]
name = "locksmith"
version = "0.1.0"
edition = "2021"
publish = false

[dependencies]
anyhow = "=1.0.104"
clap = { version = "=4.6.7", features = ["derive"] }
colored = "=2.2.0"
log = "=0.4.34"
windows = { version = "0.59", features = ["Wdk_Foundation", "Wdk_System_SystemInformation", "Win32_Foundation", "Win32_Security", "Win32_Storage_FileSystem", "Win32_System_ProcessStatus", "Win32_System_Threading", "Win32_System_WindowsProgramming"] }
