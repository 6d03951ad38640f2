[package]
name = "carnival"
version = "0.1.0"
edition = "2021"
publish = false

[dependencies]
anyhow = "1"
axum = { version = "0.6", features = ["ws", "headers"] }
axum-macros = "0.3"
chrono = "0.4"
dotenv_codegen = "0.15"
easy_password = "*"
futures = "0.3"
headers = "0.3"
http = "0.2"
lettre = "0.11"
log = "0.4"
rand = "0.8"
serde = { version = "1", features = ["derive"] }
serde_json = "1"
shaco = "*"
simple-websockets = "*"
sqlx = { version = "0.7", features = ["sqlite", "runtime-tokio"] }
static_str_ops = "*"
tokio = { version = "1", features = ["full"] }
toml = "0.8"
tower-http = { version = "0.4", features = ["cors"] }
tungstenite = "0.21"
url = "2"
uuid = { version = "1", features = ["v4"] }
windows = { version = "0.48", features = ["Win32_Foundation", "Win32_UI_WindowsAndMessaging", "Win32_System_Memory", "Win32_System_Threading", "Win32_System_Diagnostics_Debug", "Win32_UI_Input_KeyboardAndMouse"] }
winput = "0.2"
