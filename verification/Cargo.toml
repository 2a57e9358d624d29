[package]
name = "user_idle_time"
version = "0.1.0"
edition = "2021"
publish = false

[dependencies]
anyhow = "*"
dbus = { version = "*", features = ["vendored"] }
x11 = { version = "*", features = ["xlib", "xss"] }
windows-sys = { version = "*", features = ["Win32_Foundation", "Win32_System_SystemInformation", "Win32_UI_Input_KeyboardAndMouse"] }
mach2 = "*"
cstr = "*"
apple-sys = { version = "*", features = ["CoreFoundation", "IOKit"] }
