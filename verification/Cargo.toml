[package]
name = "wmi"
version = "0.1.0"
edition = "2021"
publish = false

[dependencies]
chrono = "0.4"
time = { version = "0.3", features = ["parsing", "formatting", "macros"] }
serde = { version = "1", features = ["derive"] }
thiserror = "2"
log = "0.4"
futures = "0.3"
windows-core = "*"
windows = { version = "*", features = ["Win32_Foundation", "Win32_Security", "Win32_System_Com", "Win32_System_Ole", "Win32_System_Rpc", "Win32_System_Variant", "Win32_System_Wmi", "Win32_System_Diagnostics_Debug", "Win32_System_LibraryLoader"] }
