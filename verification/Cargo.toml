[package]
name = "plain_clipboard"
version = "0.1.0"
edition = "2021"
publish = false

[dependencies]
winapi = { version = "0.3", features = ["minwindef", "windef", "winbase", "winnt", "winuser", "winreg", "winerror", "libloaderapi"] }
tao = "*"
tray-icon = "*"
image = { version = "*", default-features = false, features = ["png"] }
