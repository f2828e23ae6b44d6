[package]
name = "atlas_observer"
version = "0.1.0"
edition = "2021"
publish = false

[dependencies]
serde = { version = "=1.0.229", features = ["derive"] }
thiserror = "=2.0.21"
toml = "=1.1.8"
reqwest = { version = "=0.12.28", default-features = false, features = ["blocking", "json", "rustls-tls"] }
sysinfo = "=0.40.1"
windows = { version = "=0.58.0", features = ["Win32_Foundation", "Win32_System_Diagnostics_Debug", "Win32_System_Memory", "Win32_System_ProcessStatus", "Win32_System_Threading"] }
ratatui = "=0.30.2"
crossterm = "=0.29.0"
cli-clipboard = "=0.4.0"
chrono = "=0.4.45"
simplelog = "=0.12.2"
log = "=0.4.35"
