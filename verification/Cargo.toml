[package]
name = "yakuza_freecam"
version = "0.1.0"
edition = "2021"
publish = false

[dependencies]
memory-rs = "=0.2.6"
winapi = { version = "=0.3.9", features = ["winuser", "xinput", "consoleapi", "wincon", "libloaderapi", "sysinfoapi", "minwindef", "windef", "processthreadsapi", "winnt"] }
nalgebra-glm = "=0.21.0"
sysinfo = "=0.26.9"
dont_disappear = "=3.0.1"
log = "=0.4.35"
simplelog = "=0.12.2"
termcolor = "=1.4.1"
anyhow = "=1.0.104"
