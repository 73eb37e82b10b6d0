[package]
name = "named_pipe_ipc"
version = "0.1.0"
edition = "2021"
publish = false

[dependencies]
chacha20poly1305 = "=0.10.1"
serde = "=1.0.229"
serde_json = "=1.0.151"
tokio = { version = "=1.53.2", features = ["net", "io-util", "rt"] }
windows = { version = "0.61", default-features = false, features = ["Win32_Foundation", "Win32_System_Pipes", "Win32_System_Threading"] }
