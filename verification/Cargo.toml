[package]
name = "syncthingers"
version = "0.1.0"
edition = "2021"
publish = false

[dependencies]
sysinfo = "*"
dirs = "*"
log = "0.4"
simplelog = "*"
opener = "*"
serde = { version = "1", features = ["derive"] }
serde_json = "1"
thiserror = "*"
tray-item = "*"
winapi = { version = "0.3", features = ["winuser", "synchapi", "handleapi", "errhandlingapi", "winerror", "winbase", "winnt", "minwindef"] }
