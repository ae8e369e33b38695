[package]
name = "pz-ime-guard"
version = "0.1.1"
edition = "2021"
publish = false

[dependencies]
tray-icon = "*"
windows = { version = "*", features = ["Win32_Foundation", "Win32_Globalization", "Win32_Security", "Win32_Storage_FileSystem", "Win32_System_Com", "Win32_System_Threading", "Win32_UI_Input_KeyboardAndMouse", "Win32_UI_Shell", "Win32_UI_WindowsAndMessaging"] }
