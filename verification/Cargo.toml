[package]
name = "lctwitch"
version = "0.1.0"
edition = "2021"
publish = false

[dependencies]
serde = { version = "=1.0.229", features = ["derive"] }
serde_repr = "=0.1.21"
tokio = { version = "=1.53.2", features = ["rt-multi-thread", "sync", "macros", "net", "time"] }
warp = { version = "=0.4.3", features = ["server"] }
windows = { version = "=0.62.2", features = ["Win32_Foundation", "Win32_System_LibraryLoader", "Win32_System_Threading", "Win32_System_Diagnostics_Debug", "Win32_System_Registry", "Win32_System_Memory", "Win32_System_SystemServices", "Win32_UI_WindowsAndMessaging", "Win32_UI_Shell"] }
