[package]
name = "rusty_butter_knife"
version = "2.0.1"
edition = "2021"
publish = false

[dependencies]
windows-sys = { version = "=0.59.0", features = ["Win32_Foundation", "Win32_Globalization", "Win32_Security", "Win32_Security_Authorization", "Win32_Storage_FileSystem", "Win32_System_Console", "Win32_System_Diagnostics_Debug", "Win32_System_Diagnostics_ToolHelp", "Win32_System_LibraryLoader", "Win32_System_SystemInformation", "Win32_System_Threading", "Win32_UI_Shell", "Win32_System_Pipes", "Win32_System_Services", "Win32_System_IO", "Win32_System_Registry"] }
windows = { version = "=0.58.0", features = ["Win32_Foundation", "Win32_System_Com", "Win32_System_TaskScheduler", "Win32_System_Variant", "Win32_System_Ole"] }
