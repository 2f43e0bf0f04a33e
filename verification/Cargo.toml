[package]
name = "wifi_check_tui"
version = "0.1.0"
edition = "2021"
publish = false

[dependencies]
tokio = { version = "*", features = ["macros", "rt-multi-thread", "sync", "time"] }
crossterm = "*"
tui = { version = "*", features = ["crossterm"] }
neli-wifi = { version = "*", features = ["async"] }
log = "*"
simple-logging = "*"
chrono = "*"
macaddr = "*"
