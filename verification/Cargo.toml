[package]
name = "nokozero"
version = "0.1.0"
edition = "2021"
publish = false

[dependencies]
anyhow = "=1.0.104"
bitflags = "=2.13.2"
ctrlc = "=3.5.2"
nix = { version = "=0.31.3", features = ["uio", "process"] }
pico-args = "=0.5.0"
scopeguard = "=1.2.0"
tap = "=1.0.1"
zerocopy = { version = "=0.8.63", features = ["derive"] }
windows-sys = { version = "=0.61.2", features = ["Win32_Foundation", "Win32_Security", "Win32_System_LibraryLoader", "Win32_System_SystemServices", "Win32_System_Diagnostics_Debug", "Win32_System_Memory", "Win32_System_Threading", "Win32_UI_WindowsAndMessaging", "Win32_UI_Controls", "Win32_System_SystemInformation", "Win32_System_WindowsProgramming", "Win32_Graphics_Gdi"] }
