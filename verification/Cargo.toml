[package]
name = "oc_tool"
version = "0.1.7"
edition = "2021"
publish = false

[dependencies]
indexmap = "2"
anyhow = "1"
thiserror = "1"
tracing = "0.1"
tracing-subscriber = "0.3"
crossbeam = "0.8"
winreg = "0.52"
widestring = "1"
num_cpus = "1"
once_cell = "1"
whoami = "1"
windows = { version = "0.58", features = ["Win32_Foundation", "Win32_Security", "Win32_Security_Authentication_Identity", "Win32_System_Power", "Win32_System_Registry", "Win32_System_SystemServices", "Win32_System_Threading", "Win32_System_Services", "Win32_System_Diagnostics_ToolHelp", "Win32_Graphics_Gdi", "Win32_System_Pipes", "Win32_Storage_FileSystem", "Win32_UI_WindowsAndMessaging", "Win32_System_LibraryLoader"] }
