[package]
name = "winkit"
version = "0.1.0"
edition = "2021"
publish = false

[dependencies]
bitvec = "1"
widestring = "1"
windows = { version = "0.44", features = ["Foundation_Numerics", "Win32_Foundation", "Win32_Graphics_Gdi", "Win32_Graphics_Direct2D", "Win32_Graphics_Direct2D_Common", "Win32_Graphics_Dxgi_Common", "Win32_System_Com", "Win32_System_LibraryLoader", "Win32_System_Memory", "Win32_UI_HiDpi", "Win32_UI_WindowsAndMessaging"] }
parking_lot = "0.12"
lazy_static = "1"
thiserror = "1"
tracing = "0.1"
tracing-subscriber = { version = "0.3", features = ["env-filter"] }
