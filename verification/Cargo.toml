[package]
name = "lamulana_mw"
version = "0.1.0"
edition = "2021"
publish = false

[dependencies]
bytes = "1"
dll-syringe = "*"
lazy_static = "1"
log = "0.4"
log4rs = "*"
pelite = "*"
phf = { version = "*", features = ["macros"] }
ratchet_rs = { version = "*", features = ["deflate"] }
retour = { version = "*", features = ["static-detour"] }
serde = { version = "1", features = ["derive"] }
serde_json = "1"
serde_repr = "*"
thiserror = "*"
tokio = { version = "1", features = ["rt", "net", "time"] }
tokio-native-tls = "*"
toml = "*"
winapi = { version = "0.3", features = ["minwindef", "ntdef", "winnt", "timeapi", "processthreadsapi", "libloaderapi", "winuser"] }
