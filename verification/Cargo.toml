[package]
name = "blackout"
version = "0.1.0"
edition = "2021"
publish = false

[dependencies]
chksum-hash-md5 = "=0.0.1"
chrono = "=0.4.45"
crossbeam = "=0.8.5"
fs2 = "=0.4.3"
glob = "=0.3.4"
lazy_static = "=1.5.1"
mouse_position = "=0.1.4"
native-dialog = "=0.7.0"
rdev = "=0.5.3"
soloud = "=1.1.1"
sysinfo = "=0.30.13"
tokio = { version = "=1.54.1", features = ["macros", "rt", "rt-multi-thread", "sync", "time"] }
tray-item = "=0.10.0"
walkdir = "=2.5.0"
winapi = { version = "=0.3.9", features = ["consoleapi", "wincon"] }
